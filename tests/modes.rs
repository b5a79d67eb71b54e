use teranex_ctl::error::ClientError;
use teranex_ctl::mode::{VideoMode, MODE_COUNT};

#[test]
fn every_mode_has_a_name_in_table_order() {
    let modes = VideoMode::all();
    let names = VideoMode::variants();
    assert_eq!(modes.len(), MODE_COUNT);
    assert_eq!(names.len(), 33);
    for (m, n) in modes.iter().zip(names.iter()) {
        assert_eq!(m.name(), *n);
    }
    assert_eq!(names[0], "525i59.94_NTSC");
    assert_eq!(names[21], "2K-DCI-23.98p");
    assert_eq!(names[32], "2160p60");
}

#[test]
fn wire_name_turns_underscores_into_spaces() {
    assert_eq!(VideoMode::Mode525i59_94.protocol_name(), "525i59.94 NTSC");
    assert_eq!(VideoMode::Mode1080p59_94.protocol_name(), "1080p59.94");
    assert_eq!(VideoMode::Mode2KDCI23_98PsF.protocol_name(), "2K-DCI-23.98PsF");
    for m in VideoMode::all() {
        let expected: String = m.name().chars().map(|c| if c == '_' { ' ' } else { c }).collect();
        assert_eq!(m.protocol_name(), expected);
        assert!(!m.name().contains(' '));
    }
}

#[test]
fn display_names_are_distinct_and_read_back() {
    let modes = VideoMode::all();
    for (i, a) in modes.iter().enumerate() {
        for (j, b) in modes.iter().enumerate() {
            assert_eq!(i == j, a.name() == b.name());
            assert_eq!(i == j, a.name().eq_ignore_ascii_case(b.name()));
        }
        assert_eq!(VideoMode::from_str(a.name()), Ok(*a));
    }
}

#[test]
fn lookup_ignores_case() {
    let exact = VideoMode::from_str("1080p59.94").unwrap();
    let mixed = VideoMode::from_str("1080P59.94").unwrap();
    assert_eq!(exact, VideoMode::Mode1080p59_94);
    assert_eq!(mixed, exact);
    assert_eq!(mixed.protocol_name(), exact.protocol_name());
    assert_eq!(VideoMode::from_str("1080psf23.98"), Ok(VideoMode::Mode1080PsF23_98));
    assert_eq!(VideoMode::from_str("2k-dci-24psf"), Ok(VideoMode::Mode2KDCI24PsF));
}

#[test]
fn unknown_mode_is_rejected() {
    assert_eq!(VideoMode::from_str("1080p"), Err(ClientError::InvalidMode));
    assert_eq!(VideoMode::from_str(""), Err(ClientError::InvalidMode));
    assert_eq!(VideoMode::from_str("525i59.94 NTSC"), Err(ClientError::InvalidMode));
    assert_eq!(VideoMode::from_str("1080p59.944"), Err(ClientError::InvalidMode));
}
