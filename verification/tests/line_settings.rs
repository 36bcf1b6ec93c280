use modbus_rtu::error::ValidationError;
use modbus_rtu::line::{DataBits, LineConfig, Parity, StopBits};

#[test]
fn data_bits_are_five_to_eight() {
    assert_eq!(DataBits::from_number(5), Ok(DataBits::Five));
    assert_eq!(DataBits::from_number(6), Ok(DataBits::Six));
    assert_eq!(DataBits::from_number(7), Ok(DataBits::Seven));
    assert_eq!(DataBits::from_number(8), Ok(DataBits::Eight));
    for number in (0..=255u8).filter(|n| !(5..=8).contains(n)) {
        assert_eq!(DataBits::from_number(number), Err(ValidationError::InvalidDataBits));
    }
    assert_eq!(DataBits::Five.number(), 5);
    assert_eq!(DataBits::Six.number(), 6);
    assert_eq!(DataBits::Seven.number(), 7);
    assert_eq!(DataBits::Eight.number(), 8);
}

#[test]
fn stop_bits_are_one_or_two() {
    assert_eq!(StopBits::from_number(1), Ok(StopBits::One));
    assert_eq!(StopBits::from_number(2), Ok(StopBits::Two));
    for number in (0..=255u8).filter(|n| !(1..=2).contains(n)) {
        assert_eq!(StopBits::from_number(number), Err(ValidationError::InvalidStopBits));
    }
    assert_eq!(StopBits::One.number(), 1);
    assert_eq!(StopBits::Two.number(), 2);
}

#[test]
fn parity_names_in_lower_case() {
    assert_eq!(Parity::from_name("none"), Ok(Parity::NoParity));
    assert_eq!(Parity::from_name("odd"), Ok(Parity::Odd));
    assert_eq!(Parity::from_name("even"), Ok(Parity::Even));
}

#[test]
fn parity_names_in_any_case() {
    assert_eq!(Parity::from_name("NONE"), Ok(Parity::NoParity));
    assert_eq!(Parity::from_name("None"), Ok(Parity::NoParity));
    assert_eq!(Parity::from_name("nOnE"), Ok(Parity::NoParity));
    assert_eq!(Parity::from_name("ODD"), Ok(Parity::Odd));
    assert_eq!(Parity::from_name("Odd"), Ok(Parity::Odd));
    assert_eq!(Parity::from_name("EVEN"), Ok(Parity::Even));
    assert_eq!(Parity::from_name("eVeN"), Ok(Parity::Even));
}

#[test]
fn other_parity_names_are_refused() {
    for name in ["", "n", "no", "non", "nonee", "od", "oddd", "eve", "evenn", "mark", "space", " odd", "odd ", "0dd", "nöne", "ödd", "o\u{0}d"] {
        assert_eq!(Parity::from_name(name), Err(ValidationError::InvalidParity), "{:?}", name);
    }
}

#[test]
fn parity_agrees_with_lower_casing() {
    let letters = ['n', 'N', 'o', 'O', 'e', 'E', 'd', 'D', 'v', 'V', 'x', ' ', 'é', 'K', '\u{212A}'];
    let mut names: Vec<String> = vec![String::new()];
    for _ in 0..4 {
        let mut longer = Vec::new();
        for name in &names {
            for c in letters {
                let mut s = name.clone();
                s.push(c);
                longer.push(s);
            }
        }
        for name in &longer {
            let expected = match name.to_lowercase().as_str() {
                "none" => Ok(Parity::NoParity),
                "odd" => Ok(Parity::Odd),
                "even" => Ok(Parity::Even),
                _ => Err(ValidationError::InvalidParity),
            };
            assert_eq!(Parity::from_name(name), expected, "{:?}", name);
        }
        names = longer;
    }
}

#[test]
fn line_config_is_built_from_valid_settings() {
    assert_eq!(
        LineConfig::new(9600, 8, 1, "none", 1000),
        Ok(LineConfig {
            baud_rate: 9600,
            data_bits: DataBits::Eight,
            stop_bits: StopBits::One,
            parity: Parity::NoParity,
            timeout_ms: 1000,
        })
    );
    assert_eq!(
        LineConfig::new(115200, 7, 2, "Even", 0),
        Ok(LineConfig {
            baud_rate: 115200,
            data_bits: DataBits::Seven,
            stop_bits: StopBits::Two,
            parity: Parity::Even,
            timeout_ms: 0,
        })
    );
}

#[test]
fn line_config_refuses_each_bad_setting() {
    assert_eq!(LineConfig::new(9600, 8, 1, "mark", 1000), Err(ValidationError::InvalidParity));
    assert_eq!(LineConfig::new(9600, 9, 1, "none", 1000), Err(ValidationError::InvalidDataBits));
    assert_eq!(LineConfig::new(9600, 8, 3, "none", 1000), Err(ValidationError::InvalidStopBits));
    assert_eq!(LineConfig::new(0, 8, 1, "none", 1000), Err(ValidationError::InvalidBaudRate));
}

#[test]
fn line_config_reports_the_first_bad_setting() {
    assert_eq!(LineConfig::new(0, 9, 3, "mark", 1000), Err(ValidationError::InvalidParity));
    assert_eq!(LineConfig::new(0, 9, 3, "odd", 1000), Err(ValidationError::InvalidDataBits));
    assert_eq!(LineConfig::new(0, 5, 3, "odd", 1000), Err(ValidationError::InvalidStopBits));
    assert_eq!(LineConfig::new(0, 5, 2, "odd", 1000), Err(ValidationError::InvalidBaudRate));
}

fn line(baud_rate: u32, data_bits: u8, stop_bits: u8, parity: &str) -> LineConfig {
    LineConfig::new(baud_rate, data_bits, stop_bits, parity, 1000).unwrap()
}

#[test]
fn a_character_takes_start_data_parity_and_stop_bits() {
    assert_eq!(line(9600, 8, 1, "none").character_bits(), 10);
    assert_eq!(line(9600, 8, 1, "even").character_bits(), 11);
    assert_eq!(line(9600, 8, 2, "odd").character_bits(), 12);
    assert_eq!(line(9600, 5, 1, "none").character_bits(), 7);
    assert_eq!(line(9600, 7, 2, "none").character_bits(), 10);
}

#[test]
fn the_frame_gap_is_three_and_a_half_characters() {
    assert_eq!(line(9600, 8, 1, "none").frame_gap_micros(), 3646);
    assert_eq!(line(9600, 8, 1, "even").frame_gap_micros(), 4011);
    assert_eq!(line(19200, 8, 1, "even").frame_gap_micros(), 2006);
    assert_eq!(line(19200, 5, 1, "none").frame_gap_micros(), 1277);
    assert_eq!(line(1200, 8, 2, "odd").frame_gap_micros(), 35000);
    assert_eq!(line(1, 8, 2, "odd").frame_gap_micros(), 42_000_000);
    assert_eq!(line(300, 8, 1, "none").frame_gap_micros(), 116_667);
}

#[test]
fn the_frame_gap_is_fixed_above_19200_baud() {
    assert_eq!(line(19201, 8, 1, "none").frame_gap_micros(), 1750);
    assert_eq!(line(38400, 8, 1, "even").frame_gap_micros(), 1750);
    assert_eq!(line(115200, 8, 1, "none").frame_gap_micros(), 1750);
    assert_eq!(line(u32::MAX, 8, 2, "odd").frame_gap_micros(), 1750);
}
