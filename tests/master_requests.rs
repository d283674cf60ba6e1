use rusty_weed::master::{
    AssignKeyOptions, AssignKeyResponse, LookupVolumeOptions, Master, MasterErrors,
};
use rusty_weed::utils::{ReplicationType, ReplicationValues, TTLUnits, FID, FIDErrors, TTL};

#[test]
fn parse_resp_assign_key() {
    let data = r#"{
            "count": 1,
            "fid":"3,01637037d6",
            "publicUrl":"1.1.1.1:9333",
            "url":"1.2.2.2:3233"
        }"#;

    let v: serde_json::Value = serde_json::from_str(data).unwrap();
    let parsed = AssignKeyResponse::from_parts(
        v["count"].as_u64().unwrap(),
        v["fid"].as_str().unwrap(),
        v["publicUrl"].as_str().unwrap().to_string(),
        v["url"].as_str().unwrap().to_string(),
    );
    match parsed {
        Ok(f) => {
            assert_eq!("3,01637037d6", f.fid.to_string().as_str());
            assert_eq!(f.count, 1);
            assert_eq!(f.location.public_url, "1.1.1.1:9333");
            assert_eq!(f.location.url, "1.2.2.2:3233");
        }
        Err(_) => panic!("Failed to parse RespAssignKey"),
    }
}

#[test]
fn assign_response_with_bad_fid() {
    let r = AssignKeyResponse::from_parts(1, "x", String::new(), String::new());
    assert!(matches!(r, Err(FIDErrors::MalformedHandle)));
}

#[test]
fn master_address() {
    let m = Master::from_str("1.1.1.1:9333").unwrap();
    assert_eq!(m.host, "1.1.1.1");
    assert_eq!(m.port, Some(9333));
    assert_eq!(m.to_string(), "http://1.1.1.1:9333");
    let d = Master { host: "localhost".to_string(), port: None };
    assert_eq!(d.to_string(), "http://localhost:9333");
    let p = Master { host: "localhost".to_string(), port: Some(8333) };
    assert_eq!(p.to_string(), "http://localhost:8333");
}

#[test]
fn master_address_failures() {
    assert!(matches!(Master::from_str("localhost"), Err(MasterErrors::WrongFormat)));
    assert!(matches!(Master::from_str("localhost:"), Err(MasterErrors::WrongFormat)));
    assert!(matches!(Master::from_str("localhost:65536"), Err(MasterErrors::WrongFormat)));
    assert!(matches!(Master::from_str("localhost:80:1"), Err(MasterErrors::WrongFormat)));
}

#[test]
fn assign_url_default_options() {
    let m = Master { host: "localhost".to_string(), port: Some(8333) };
    let o: AssignKeyOptions = Default::default();
    assert_eq!(m.assign_url(&Some(o)), "http://localhost:8333/dir/assign?");
    assert_eq!(m.assign_url(&None), "http://localhost:8333/dir/assign?");
}

#[test]
fn assign_url_all_options() {
    let m = Master { host: "m".to_string(), port: None };
    let o = AssignKeyOptions {
        count: Some(2),
        collection: Some("pics and more".to_string()),
        data_center: Some("dc1".to_string()),
        rack: Some("r&1".to_string()),
        data_node: Some("n=1".to_string()),
        replication: Some(ReplicationType {
            data_center: Some(ReplicationValues::OneReplica),
            other_rack: None,
            same_rack: Some(ReplicationValues::TwoReplicas),
        }),
        ttl: Some(TTL { unit: TTLUnits::Week, value: 3 }),
        preallocate: Some(1024),
        writable_volume_count: Some(7),
        disk: Some("ssd".to_string()),
    };
    assert_eq!(
        o.to_query(),
        "count=2&collection=pics+and+more&dataCenter=dc1&rack=r%261&dataNode=n%3D1&replication=102&ttl=3w&preallocate=1024&writableVolumeCount=7&disk=ssd"
    );
    assert!(m.assign_url(&Some(o)).starts_with("http://m:9333/dir/assign?count=2&"));
}

#[test]
fn query_values_are_percent_encoded() {
    let o = AssignKeyOptions {
        collection: Some("é#%+[]<>\"".to_string()),
        ..Default::default()
    };
    assert_eq!(o.to_query(), "collection=%C3%A9%23%25%2B%5B%5D%3C%3E%22");
}

#[test]
fn lookup_url_with_options() {
    let m = Master { host: "localhost".to_string(), port: Some(8333) };
    let fid = FID::from_string("3,01637037d6").unwrap();
    assert_eq!(m.lookup_url(&fid, &None), "http://localhost:8333/dir/lookup?volumeId=3");
    let o: LookupVolumeOptions = Default::default();
    assert_eq!(m.lookup_url(&fid, &Some(o)), "http://localhost:8333/dir/lookup?volumeId=3");
    let o = LookupVolumeOptions {
        collection: Some("c".to_string()),
        file_id: Some(FID::from_string("3,01637037d6_4").unwrap()),
        read: Some(true),
    };
    assert_eq!(
        m.lookup_url(&fid, &Some(o)),
        "http://localhost:8333/dir/lookup?volumeId=3&collection=c&fileId=3,01637037d6_4&read=true"
    );
}

#[test]
fn master_reply_status() {
    assert_eq!(Master::check_reply(200, "{}".to_string()), Ok("{}".to_string()));
    assert_eq!(
        Master::check_reply(404, "no volume".to_string()),
        Err(MasterErrors::InvalidRequest("no volume".to_string()))
    );
    assert_eq!(
        Master::check_reply(201, "x".to_string()),
        Err(MasterErrors::InvalidRequest("x".to_string()))
    );
}
