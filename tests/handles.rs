use rusty_weed::utils::{
    Location, ReplicationType, ReplicationValues, TTLUnits, FID, FIDErrors, TTL,
};

#[test]
fn check_fid_parsing() {
    let fid_str = "3,5442434343_2";
    let fid = FID::from_string(fid_str);

    match fid {
        Ok(f) => assert_eq!(fid_str, f.to_string().as_str()),
        _ => panic!("Failed to parse fid"),
    }
}

#[test]
fn fid_without_count_round_trips() {
    let f = FID::from_string("3,01637037d6").unwrap();
    assert_eq!(f.volume_id, 3);
    assert_eq!(f.file_string, "01637037d6");
    assert_eq!(f.count, None);
    assert_eq!(f.to_string(), "3,01637037d6");
}

#[test]
fn fid_with_count_round_trips() {
    let f = FID::from_string("3,5442434343_2").unwrap();
    assert_eq!(f.volume_id, 3);
    assert_eq!(f.file_string, "5442434343");
    assert_eq!(f.count, Some(2));
    let again = FID::from_string(&f.to_string()).unwrap();
    assert_eq!(again, f);
}

#[test]
fn fid_formats_fields() {
    let f = FID { volume_id: 4294967295, file_string: "ab".to_string(), count: Some(18446744073709551615) };
    assert_eq!(f.to_string(), "4294967295,ab_18446744073709551615");
    assert_eq!(FID::from_string(&f.to_string()).unwrap(), f);
    let g = FID { volume_id: 0, file_string: "x".to_string(), count: None };
    assert_eq!(g.to_string(), "0,x");
}

#[test]
fn fid_parse_failures() {
    assert_eq!(FID::from_string(""), Err(FIDErrors::MalformedHandle));
    assert_eq!(FID::from_string("abc,x"), Err(FIDErrors::MalformedHandle));
    assert_eq!(FID::from_string("3"), Err(FIDErrors::MalformedHandle));
    assert_eq!(FID::from_string("3,k_x"), Err(FIDErrors::MalformedHandle));
    assert_eq!(FID::from_string("3,k_"), Err(FIDErrors::MalformedHandle));
    assert_eq!(FID::from_string("3,k_1_2"), Err(FIDErrors::MalformedHandle));
    assert_eq!(FID::from_string("4294967296,k"), Err(FIDErrors::MalformedHandle));
    assert_eq!(FID::from_string("-1,k"), Err(FIDErrors::MalformedHandle));
    assert_eq!(FID::from_string("+,k"), Err(FIDErrors::MalformedHandle));
    assert_eq!(FID::from_string("3,k_18446744073709551616"), Err(FIDErrors::MalformedHandle));
}

#[test]
fn fid_parse_edges() {
    let f = FID::from_string("+7,a,b").unwrap();
    assert_eq!(f.volume_id, 7);
    assert_eq!(f.file_string, "a,b");
    let e = FID::from_string("3,").unwrap();
    assert_eq!(e.file_string, "");
    assert_eq!(e.count, None);
    let z = FID::from_string("007,k_09").unwrap();
    assert_eq!(z.volume_id, 7);
    assert_eq!(z.count, Some(9));
}

#[test]
fn replication_digits() {
    let only_same_rack = ReplicationType {
        data_center: None,
        other_rack: None,
        same_rack: Some(ReplicationValues::TwoReplicas),
    };
    assert_eq!(only_same_rack.to_string(), "002");
    let none = ReplicationType { data_center: None, other_rack: None, same_rack: None };
    assert_eq!(none.to_string(), "000");
    let mixed = ReplicationType {
        data_center: Some(ReplicationValues::OneReplica),
        other_rack: Some(ReplicationValues::TwoReplicas),
        same_rack: None,
    };
    assert_eq!(mixed.to_string(), "120");
    assert_eq!(ReplicationValues::OneReplica.to_string(), "1");
    assert_eq!(ReplicationValues::TwoReplicas.to_string(), "2");
}

#[test]
fn ttl_text() {
    assert_eq!(TTL { unit: TTLUnits::Month, value: 5 }.to_string(), "5M");
    assert_eq!(TTL { unit: TTLUnits::Minute, value: 5 }.to_string(), "5m");
    assert_eq!(TTL { unit: TTLUnits::Year, value: 0 }.to_string(), "0y");
    assert_eq!(TTL { unit: TTLUnits::Hour, value: 4294967295 }.to_string(), "4294967295h");
    assert_eq!(TTLUnits::Day.to_string(), "d");
    assert_eq!(TTLUnits::Week.to_string(), "w");
}

#[test]
fn location_holds_both_urls() {
    let l = Location { public_url: "1.1.1.1:9333".to_string(), url: "1.2.2.2:3233".to_string() };
    assert_eq!(l.clone(), l);
}
