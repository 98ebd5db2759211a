use msi_ec_dbus::controls::power_control::{
    get_available_power_modes, get_current_power_mode, set_power_mode, Error, PowerMode,
};
use std::io;

const MODES: [PowerMode; 5] =
    [PowerMode::Eco, PowerMode::Comfort, PowerMode::Sport, PowerMode::Turbo, PowerMode::Unknown];

const TOKENS: [&str; 4] = ["eco", "comfort", "sport", "turbo"];

fn available(text: &str) -> Vec<PowerMode> {
    get_available_power_modes(Ok(text.to_string())).unwrap()
}

fn current(text: &str) -> PowerMode {
    get_current_power_mode(Ok(text.to_string())).unwrap()
}

/// What std's `trim` and `split` make of a file of available modes.
fn available_by_std(text: &str) -> Vec<PowerMode> {
    let modes: Vec<PowerMode> =
        text.trim().split('\n').map(|line| PowerMode::from(line.trim().to_string())).collect();
    if modes.len() == 1 && modes.contains(&PowerMode::Unknown) {
        return Vec::new();
    }
    modes
}

#[test]
fn each_token_is_read_as_its_mode() {
    assert_eq!(PowerMode::from("eco".to_string()), PowerMode::Eco);
    assert_eq!(PowerMode::from("comfort".to_string()), PowerMode::Comfort);
    assert_eq!(PowerMode::from("sport".to_string()), PowerMode::Sport);
    assert_eq!(PowerMode::from("turbo".to_string()), PowerMode::Turbo);
}

#[test]
fn each_mode_is_written_as_its_token() {
    assert_eq!(String::from(PowerMode::Eco), "eco");
    assert_eq!(String::from(PowerMode::Comfort), "comfort");
    assert_eq!(String::from(PowerMode::Sport), "sport");
    assert_eq!(String::from(PowerMode::Turbo), "turbo");
    assert_eq!(String::from(PowerMode::Unknown), "unknown");
}

#[test]
fn modes_and_tokens_round_trip() {
    for mode in MODES {
        assert_eq!(PowerMode::from(String::from(mode)), mode);
    }
    for token in TOKENS {
        assert_eq!(String::from(PowerMode::from(token.to_string())), token);
        assert_ne!(PowerMode::from(token.to_string()), PowerMode::Unknown);
    }
}

#[test]
fn the_text_of_unknown_is_no_token() {
    let shown = String::from(PowerMode::Unknown);
    assert!(!TOKENS.contains(&shown.as_str()));
    assert_eq!(PowerMode::from(shown), PowerMode::Unknown);
}

#[test]
fn any_other_text_is_read_as_unknown() {
    for text in ["", " ", "ECO", "Eco", "eco ", " eco", "eco\n", "ec", "ecoo", "unknown", "silent",
        "comfort sport", "turbo\0", "sp\u{F6}rt"]
    {
        assert_eq!(PowerMode::from(text.to_string()), PowerMode::Unknown, "{:?}", text);
    }
}

#[test]
fn modes_compare_by_variant() {
    for (i, first) in MODES.iter().enumerate() {
        for (j, second) in MODES.iter().enumerate() {
            assert_eq!(first == second, i == j);
        }
    }
    let copy = PowerMode::Sport;
    let same = copy;
    assert_eq!(copy, same.clone());
    assert_eq!(format!("{:?}", PowerMode::Turbo), "Turbo");
}

#[test]
fn available_modes_are_read_line_by_line() {
    assert_eq!(
        available("eco\ncomfort\nsport"),
        vec![PowerMode::Eco, PowerMode::Comfort, PowerMode::Sport]
    );
    assert_eq!(
        available("eco\ncomfort\nsport\nturbo\n"),
        vec![PowerMode::Eco, PowerMode::Comfort, PowerMode::Sport, PowerMode::Turbo]
    );
    assert_eq!(available("turbo"), vec![PowerMode::Turbo]);
    assert_eq!(available("eco\n"), vec![PowerMode::Eco]);
    assert_eq!(available("sport\neco"), vec![PowerMode::Sport, PowerMode::Eco]);
    assert_eq!(available("eco\neco"), vec![PowerMode::Eco, PowerMode::Eco]);
}

#[test]
fn available_modes_are_trimmed() {
    assert_eq!(available("\n\n  eco\ncomfort  \n\n"), vec![PowerMode::Eco, PowerMode::Comfort]);
    assert_eq!(available("eco\r\ncomfort\r\n"), vec![PowerMode::Eco, PowerMode::Comfort]);
    assert_eq!(available("\teco \n\u{A0}sport\u{3000}"), vec![PowerMode::Eco, PowerMode::Sport]);
    assert_eq!(available(" turbo\t\n"), vec![PowerMode::Turbo]);
}

#[test]
fn a_line_that_names_no_mode_is_unknown() {
    assert_eq!(available("eco\nsilent"), vec![PowerMode::Eco, PowerMode::Unknown]);
    assert_eq!(available("silent\neco"), vec![PowerMode::Unknown, PowerMode::Eco]);
    assert_eq!(available("silent\nloud"), vec![PowerMode::Unknown, PowerMode::Unknown]);
    assert_eq!(
        available("eco\n\nsport"),
        vec![PowerMode::Eco, PowerMode::Unknown, PowerMode::Sport]
    );
    assert_eq!(available("eco\nunknown"), vec![PowerMode::Eco, PowerMode::Unknown]);
}

#[test]
fn a_single_line_that_names_no_mode_offers_nothing() {
    assert_eq!(available("silent"), Vec::<PowerMode>::new());
    assert_eq!(available("silent\n"), Vec::<PowerMode>::new());
    assert_eq!(available("  silent  \n\n"), Vec::<PowerMode>::new());
    assert_eq!(available("unknown\n"), Vec::<PowerMode>::new());
    assert_eq!(available("eco comfort\n"), Vec::<PowerMode>::new());
    assert_eq!(available(""), Vec::<PowerMode>::new());
    assert_eq!(available("\n"), Vec::<PowerMode>::new());
    assert_eq!(available(" \n \n"), Vec::<PowerMode>::new());
}

#[test]
fn available_modes_are_never_a_lone_unknown() {
    let alphabet = ["eco", "x", "\n", " ", "turbo"];
    let mut texts = vec![String::new()];
    for _ in 0..5 {
        let mut longer = Vec::new();
        for text in &texts {
            for piece in alphabet {
                longer.push(format!("{}{}", text, piece));
            }
        }
        texts.extend(longer);
        texts.sort();
        texts.dedup();
    }
    for text in texts {
        let modes = available(&text);
        assert_ne!(modes, vec![PowerMode::Unknown], "{:?}", text);
        assert_eq!(modes, available_by_std(&text), "{:?}", text);
    }
}

#[test]
fn a_failed_read_of_the_available_modes_is_an_io_error() {
    let result = get_available_power_modes(Err(io::Error::new(io::ErrorKind::NotFound, "no such file")));
    match result {
        Err(Error::IOError(source)) => {
            assert_eq!(source.kind(), io::ErrorKind::NotFound);
            assert_eq!(source.to_string(), "no such file");
        }
        other => panic!("{:?}", other),
    }
}

#[test]
fn the_current_mode_is_read_trimmed() {
    assert_eq!(current("comfort\n"), PowerMode::Comfort);
    assert_eq!(current("eco"), PowerMode::Eco);
    assert_eq!(current("  sport \r\n"), PowerMode::Sport);
    assert_eq!(current("\n\nturbo\n\n"), PowerMode::Turbo);
}

#[test]
fn a_current_mode_that_names_no_mode_is_unknown_and_no_error() {
    assert_eq!(current("silent\n"), PowerMode::Unknown);
    assert_eq!(current(""), PowerMode::Unknown);
    assert_eq!(current("eco\ncomfort"), PowerMode::Unknown);
    assert_eq!(current("unknown"), PowerMode::Unknown);
    assert_eq!(current("COMFORT"), PowerMode::Unknown);
}

#[test]
fn a_failed_read_of_the_current_mode_is_an_io_error() {
    let result =
        get_current_power_mode(Err(io::Error::new(io::ErrorKind::PermissionDenied, "not allowed")));
    match result {
        Err(Error::IOError(source)) => {
            assert_eq!(source.kind(), io::ErrorKind::PermissionDenied);
            assert_eq!(source.to_string(), "not allowed");
        }
        other => panic!("{:?}", other),
    }
}

#[test]
fn setting_a_mode_writes_its_token() {
    assert_eq!(set_power_mode(PowerMode::Eco).unwrap(), "eco");
    assert_eq!(set_power_mode(PowerMode::Comfort).unwrap(), "comfort");
    assert_eq!(set_power_mode(PowerMode::Sport).unwrap(), "sport");
    assert_eq!(set_power_mode(PowerMode::Turbo).unwrap(), "turbo");
}

#[test]
fn setting_unknown_fails_and_writes_nothing() {
    let mut file = String::from("comfort");
    let mut writes = 0;
    match set_power_mode(PowerMode::Unknown) {
        Ok(text) => {
            file = text;
            writes += 1;
        }
        Err(error) => {
            assert!(matches!(error, Error::SetUnknownModeError));
            assert_eq!(error.message(), "Unknown power mode can't be used!");
        }
    }
    assert_eq!(writes, 0);
    assert_eq!(file, "comfort");
}

#[test]
fn what_was_set_is_read_back() {
    for mode in [PowerMode::Eco, PowerMode::Comfort, PowerMode::Sport, PowerMode::Turbo] {
        let file = set_power_mode(mode).unwrap();
        assert_eq!(get_current_power_mode(Ok(file)).unwrap(), mode);
    }
}

#[test]
fn an_io_error_says_what_its_source_says() {
    let error = Error::from(io::Error::new(io::ErrorKind::Other, "the controller is gone"));
    assert!(matches!(error, Error::IOError(_)));
    assert_eq!(error.message(), "the controller is gone");
    let plain = Error::from(io::Error::from(io::ErrorKind::NotFound));
    assert_eq!(plain.message(), io::Error::from(io::ErrorKind::NotFound).to_string());
    assert_eq!(format!("{:?}", Error::SetUnknownModeError), "SetUnknownModeError");
}
