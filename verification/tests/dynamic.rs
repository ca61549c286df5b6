use elmulator::dynamic::DynamicCommand;

const ALL: [DynamicCommand; 4] = [
    DynamicCommand::Heartbeat,
    DynamicCommand::GetRpm,
    DynamicCommand::GetCoolantTemp,
    DynamicCommand::GetVoltage,
];

#[test]
fn request_strings_are_the_documented_ones() {
    assert_eq!(DynamicCommand::Heartbeat.request_str(), "210001");
    assert_eq!(DynamicCommand::GetRpm.request_str(), "210C01");
    assert_eq!(DynamicCommand::GetCoolantTemp.request_str(), "210501");
    assert_eq!(DynamicCommand::GetVoltage.request_str(), "ATRV");
}

#[test]
fn to_string_is_the_request_string() {
    assert_eq!(DynamicCommand::GetRpm.to_string(), "210C01".to_string());
    assert_eq!(DynamicCommand::GetCoolantTemp.to_string(), "210501".to_string());
    for query in ALL {
        assert_eq!(query.to_string(), query.request_str());
    }
}

#[test]
fn debug_labels_name_the_query() {
    assert_eq!(DynamicCommand::GetRpm.debug_label(), "GetRpm: 210C011");
    assert_eq!(DynamicCommand::GetCoolantTemp.debug_label(), "GetCoolantTemp: 2105011");
    assert_eq!(DynamicCommand::Heartbeat.debug_label(), "Heartbeat: 2100011");
    assert_eq!(DynamicCommand::GetVoltage.debug_label(), "GetVoltage: ATRV1");
}

#[test]
fn request_bytes_are_the_documented_ones() {
    assert_eq!(DynamicCommand::Heartbeat.request_byte(), Some(0x00));
    assert_eq!(DynamicCommand::GetRpm.request_byte(), Some(0x0C));
    assert_eq!(DynamicCommand::GetCoolantTemp.request_byte(), Some(0x05));
    assert_eq!(DynamicCommand::GetVoltage.request_byte(), None);
}

#[test]
fn identify_knows_each_request_string() {
    assert_eq!(DynamicCommand::identify("210001"), Some(DynamicCommand::Heartbeat));
    assert_eq!(DynamicCommand::identify("210C01"), Some(DynamicCommand::GetRpm));
    assert_eq!(DynamicCommand::identify("210501"), Some(DynamicCommand::GetCoolantTemp));
    assert_eq!(DynamicCommand::identify("ATRV"), Some(DynamicCommand::GetVoltage));
}

#[test]
fn identify_inverts_request_str() {
    for query in ALL {
        assert_eq!(DynamicCommand::identify(query.request_str()), Some(query));
        let with_ending = format!("{}\r", query.request_str());
        assert_eq!(DynamicCommand::identify(&with_ending), Some(query));
        let with_both = format!("{}\r\n", query.request_str());
        assert_eq!(DynamicCommand::identify(&with_both), Some(query));
    }
}

#[test]
fn no_two_queries_share_a_request_string() {
    for (i, a) in ALL.iter().enumerate() {
        for (j, b) in ALL.iter().enumerate() {
            assert_eq!(a.request_str() == b.request_str(), i == j);
        }
    }
}

#[test]
fn identify_is_exact() {
    assert_eq!(DynamicCommand::identify("210c01"), None);
    assert_eq!(DynamicCommand::identify("atrv"), None);
    assert_eq!(DynamicCommand::identify("210C0"), None);
    assert_eq!(DynamicCommand::identify("210C011"), None);
    assert_eq!(DynamicCommand::identify(" 210C01"), None);
    assert_eq!(DynamicCommand::identify("210C01 "), None);
    assert_eq!(DynamicCommand::identify("210D01"), None);
    assert_eq!(DynamicCommand::identify("ATZ"), None);
    assert_eq!(DynamicCommand::identify(""), None);
    assert_eq!(DynamicCommand::identify("\r"), None);
}
