use ragc::utils::_dp_add;
use ragc::utils::agc_dp_to_cpu;
use ragc::utils::agc_sp_to_cpu;
use ragc::utils::cpu_to_agc_sp;
use ragc::utils::generate_yaagc_packet;
use ragc::utils::overflow_correction;
use ragc::utils::parse_yaagc_packet;
use ragc::utils::s15_add;
use ragc::utils::s15_ones_to_twos;
use ragc::utils::s16_add;
use ragc::utils::sign_extend;

#[test]
fn test_overflow_correction_pos() {
    for test_val in 0o040000..0o077777 {
        let result = overflow_correction(test_val);
        assert_eq!(test_val & 0o37777, result);
    }
}

#[test]
fn test_overflow_correction_neg() {
    for test_val in 0o100000..0o137777 {
        let result = overflow_correction(test_val);
        assert_eq!(test_val | 0o40000, result);
    }
}

#[test]
fn test_sign_extend_positive() {
    for test_val in 0o000000..=0o037777 {
        let result = sign_extend(test_val);
        assert_eq!(
            test_val, result,
            "Failed sign extension: Expected: {:o} | Result: {:o}",
            test_val, result
        );
    }
}

#[test]
fn test_sign_extend_negative() {
    for test_val in 0o040000..=0o077777 {
        let result = sign_extend(test_val);
        assert_eq!(
            test_val | 0o100000,
            result,
            "Failed sign extension: Expected: {:o} | Result: {:o}",
            test_val,
            result
        );
    }
}

#[test]
fn s15_ones_to_twos_test_positive() {
    for test_val in 0o00000..=0o37777 {
        let result = s15_ones_to_twos(test_val);
        assert_eq!(
            test_val, result,
            "s15_ones_to_twos failed. Expected {:o} | Result: {:o}",
            test_val, result
        );
    }
}

#[test]
fn s15_ones_to_twos_test_negative() {
    for test_val in 0o40000..=0o77777 {
        let result = s15_ones_to_twos(test_val);
        assert_eq!(
            (test_val + 1) & 0o77777,
            result,
            "s15_ones_to_twos failed. Expected {:o} | Result: {:o}",
            test_val,
            result
        );
    }
}

#[test]
fn s15_add_tests() {
    let test_vals = [
        // Test the zero case
        (0o77777, 0o77777, 0o77777),
        (0, 0, 0),
        // Test the basic math cases
        (1, 1, 2),
        (0o77776, 0o77776, 0o77775),
        // IR: 47ff | INDEX: 3809 | Result: 0009
        (0x47ff, 0x3809, 0x0009),
    ];

    for (a, b, expect) in test_vals.iter() {
        let res = s15_add(*a, *b);
        assert_eq!(
            *expect, res,
            "Failed S15 Addition: {:o} + {:o} = {:o}, Result: {:o}",
            a, b, expect, res
        );
    }
}

#[test]
fn overflow_correction_settles_every_word() {
    for x in 0..=0xFFFFu16 {
        let c = overflow_correction(x);
        assert!(c & 0xC000 == 0 || c & 0xC000 == 0xC000);
        assert_eq!(c & 0x3FFF, x & 0x3FFF);
        assert_eq!(sign_extend(c), c);
    }
}

#[test]
fn s16_add_end_around_carry() {
    assert_eq!(s16_add(0x0010, 0x0010), 0x0020);
    assert_eq!(s16_add(0x3FFF, 0x0001), 0x4000);
    assert_eq!(s16_add(0xC000, 0xFFFE), 0xBFFF);
    assert_eq!(s16_add(0xFFFE, 0xFFFE), 0xFFFD);
    assert_eq!(s16_add(0x0020, 0xFFFD), 0x001E);
    assert_eq!(s16_add(0xFFFF, 0xFFFF), 0xFFFF);
    assert_eq!(s16_add(0xFFFF, 0x0001), 0x0001);
}

#[test]
fn dp_add_carries_above_bit_28() {
    assert_eq!(_dp_add(1, 2), 3);
    assert_eq!(_dp_add(0o3777777777, 0o0000000001), 0o4000000001);
    assert_eq!(_dp_add(0o1777777777, 0o0000000001), 0o2000000000);
}

#[test]
fn sp_conversions_round_trip() {
    assert_eq!(agc_sp_to_cpu(0o00005), 5);
    assert_eq!(agc_sp_to_cpu(0o77772), -5);
    assert_eq!(agc_sp_to_cpu(0o37777), 16383);
    assert_eq!(agc_sp_to_cpu(0o40000), -16383);
    assert_eq!(agc_sp_to_cpu(0o00000), 0);
    assert_eq!(agc_sp_to_cpu(0o77777), 0);
    assert_eq!(cpu_to_agc_sp(5), 0o00005);
    assert_eq!(cpu_to_agc_sp(-5), 0o77772);
    assert_eq!(cpu_to_agc_sp(0), 0o77777);
    assert_eq!(cpu_to_agc_sp(-16380), 0o40003);
    for x in 1..=0o77777u16 {
        assert_eq!(cpu_to_agc_sp(agc_sp_to_cpu(x)), x);
    }
    assert_eq!(cpu_to_agc_sp(agc_sp_to_cpu(0)), 0o77777);
    assert_eq!(cpu_to_agc_sp(agc_sp_to_cpu(0o77777)), 0o77777);
}

#[test]
fn dp_conversion_values() {
    assert_eq!(agc_dp_to_cpu(0o0000000005), 5);
    assert_eq!(agc_dp_to_cpu(0o3777777772), -5);
    assert_eq!(agc_dp_to_cpu(0o1777777777), 0o1777777777);
    assert_eq!(agc_dp_to_cpu(0o2000000000), -0o1777777777);
    assert_eq!(agc_dp_to_cpu(0o3777777777), 0);
}

#[test]
fn yaagc_packet_bytes_and_round_trip() {
    assert_eq!(generate_yaagc_packet(0o10, 0o12345), [0x01, 0x41, 0x93, 0xE5]);
    assert_eq!(generate_yaagc_packet(0o163, 0o77777), [0x0E, 0x5F, 0xBF, 0xFF]);
    assert_eq!(parse_yaagc_packet([0x01, 0x41, 0x93, 0xE5]), Some((0o10, 0o12345)));
    for ch in [0usize, 0o15, 0o32, 0o163, 0o377] {
        for v in [0u16, 1, 0o22, 0o40000, 0o77777] {
            assert_eq!(parse_yaagc_packet(generate_yaagc_packet(ch, v)), Some((ch as u16, v)));
        }
    }
    assert_eq!(parse_yaagc_packet(generate_yaagc_packet(0o1163, 0xFFFF)), Some((0o163, 0o77777)));
}

#[test]
fn yaagc_packet_rejects_bad_framing() {
    assert_eq!(parse_yaagc_packet([0x40, 0x41, 0x93, 0xE5]), None);
    assert_eq!(parse_yaagc_packet([0x01, 0x01, 0x93, 0xE5]), None);
    assert_eq!(parse_yaagc_packet([0x01, 0x41, 0x13, 0xE5]), None);
    assert_eq!(parse_yaagc_packet([0x01, 0x41, 0x93, 0x25]), None);
    assert_eq!(parse_yaagc_packet([0xFF, 0xFF, 0xFF, 0xFF]), None);
}
