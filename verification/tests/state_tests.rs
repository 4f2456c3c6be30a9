use feign::{ClientError, State};

#[derive(Debug, PartialEq)]
struct Config {
    timeout: i64,
}

#[test]
fn test_state_round_trip() {
    let state = State::new(Config { timeout: 5 });
    assert_eq!(state.get(), &Config { timeout: 5 });
    let back: &Config = state.downcast_ref::<Config>().unwrap();
    assert_eq!(back, &Config { timeout: 5 });
}

#[test]
fn test_state_wrong_downcast_is_typed_error() {
    let state = State::new(Config { timeout: 5 });
    match state.downcast_ref::<i64>() {
        Ok(_) => panic!("a downcast to an unrelated type must fail"),
        Err(ClientError::StateDowncast { have, want }) => {
            // The two identities differ, and each names its own type: the
            // mismatch the other way round carries them swapped.
            assert_ne!(have, want);
            let other = State::new(7i64);
            match other.downcast_ref::<Config>() {
                Err(ClientError::StateDowncast { have: have2, want: want2 }) => {
                    assert_eq!(have, want2);
                    assert_eq!(want, have2);
                }
                other => panic!("expected a downcast error, got {:?}", other),
            }
        }
        Err(other) => panic!("expected a downcast error, got {:?}", other),
    }
}

#[test]
fn test_state_error_message_names_both() {
    let state = State::new(1u8);
    let e = state.downcast_ref::<bool>().unwrap_err();
    let text = e.message();
    assert!(text.starts_with("State downcast failed: have "));
    assert!(text.contains(", want "));
}

#[test]
fn test_state_unit() {
    let state = State::new(());
    assert_eq!(state.get(), &());
    assert!(state.downcast_ref::<()>().is_ok());
}
