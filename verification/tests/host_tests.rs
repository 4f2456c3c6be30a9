use feign::{ClientError, Host, HostRound};

#[test]
fn test_host_round() {
    let mut host_round =
        HostRound::new(vec!["a".to_string(), "b".to_string(), "c".to_string()]).unwrap();
    assert_eq!(host_round.host(), "a");
    assert_eq!(host_round.host(), "b");
    assert_eq!(host_round.host(), "c");
    assert_eq!(host_round.host(), "a");
    assert_eq!(host_round.host(), "b");
    assert_eq!(host_round.host(), "c");
}

#[test]
fn test_host_round_empty_list_rejected() {
    let r = HostRound::new(Vec::new());
    match r {
        Ok(_) => panic!("an empty host list must be rejected"),
        Err(e) => {
            assert_eq!(e, ClientError::EmptyHosts);
            assert_eq!(e.message(), "HostRound hosts is empty");
        }
    }
}

#[test]
fn test_fixed_host_repeats() {
    let mut fixed = String::from("http://one");
    assert_eq!(fixed.host(), "http://one");
    assert_eq!(fixed.host(), "http://one");
    assert_eq!(fixed.host(), "http://one");
}

#[test]
fn test_host_round_single_entry_cycles() {
    let mut host_round = HostRound::new(vec!["only".to_string()]).unwrap();
    assert_eq!(host_round.host(), "only");
    assert_eq!(host_round.host(), "only");
}
