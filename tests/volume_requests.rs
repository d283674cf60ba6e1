use rusty_weed::utils::FID;
use rusty_weed::volume::{GetFileModes, GetFileOptions, UploadFileOptions, Volume, VolumeErrors};

#[test]
fn serialize_replicated() {
    let data = UploadFileOptions { replicated: Some(true), ..Default::default() };
    assert_eq!("type=replicate", data.to_query());
}

#[test]
fn replicated_false_or_absent_is_left_out() {
    let f = UploadFileOptions { replicated: Some(false), ..Default::default() };
    assert_eq!(f.to_query(), "");
    let n: UploadFileOptions = Default::default();
    assert_eq!(n.to_query(), "");
    let all = UploadFileOptions { replicated: Some(false), ts: Some(1700000000), cm: Some(true) };
    assert_eq!(all.to_query(), "ts=1700000000&cm=true");
    let both = UploadFileOptions { replicated: Some(true), ts: Some(5), cm: Some(false) };
    assert_eq!(both.to_query(), "type=replicate&ts=5&cm=false");
}

#[test]
fn volume_address() {
    let v = Volume::from_str("127.0.0.1:8080").unwrap();
    assert_eq!(v.host, "127.0.0.1");
    assert_eq!(v.port, Some(8080));
    assert_eq!(v.to_string(), "http://127.0.0.1:8080");
    assert_eq!(Volume::from_str("127.0.0.1").err(), Some(VolumeErrors::WrongFormat));
    assert_eq!(Volume::from_str("h:x").err(), Some(VolumeErrors::WrongFormat));
    let d = Volume { host: "h".to_string(), port: None };
    assert_eq!(d.to_string(), "http://h:9333");
}

#[test]
fn volume_urls() {
    let v = Volume { host: "h".to_string(), port: Some(8080) };
    let fid = FID::from_string("3,01637037d6_2").unwrap();
    assert_eq!(v.file_url(&fid), "http://h:8080/3,01637037d6_2");
    assert_eq!(v.get_file_url(&fid, &None), "http://h:8080/3,01637037d6_2?");
    assert_eq!(v.upload_url(&fid, &None), "http://h:8080/3,01637037d6_2?");
    let o = GetFileOptions {
        read_deleted: Some(true),
        width: Some(100),
        height: Some(50),
        mode: Some(GetFileModes::Fill),
        crop_x1: Some(1),
        crop_x2: Some(2),
        crop_y1: Some(3),
        crop_y2: Some(4),
    };
    assert_eq!(
        v.get_file_url(&fid, &Some(o)),
        "http://h:8080/3,01637037d6_2?readDeleted=true&width=100&height=50&mode=fill&crop_x1=1&crop_x2=2&crop_y1=3&crop_y2=4"
    );
    let u = UploadFileOptions { replicated: Some(true), ..Default::default() };
    assert_eq!(v.upload_url(&fid, &Some(u)), "http://h:8080/3,01637037d6_2?type=replicate");
}

#[test]
fn modes_text() {
    assert_eq!(GetFileModes::Fit.to_string(), "fit");
    assert_eq!(GetFileModes::Fill.to_string(), "fill");
    let o = GetFileOptions { mode: Some(GetFileModes::Fit), ..Default::default() };
    assert_eq!(o.to_query(), "mode=fit");
    let d: GetFileOptions = Default::default();
    assert_eq!(d.to_query(), "");
}

#[test]
fn fetch_reply_status() {
    let body = b"Hello World!".to_vec();
    assert_eq!(Volume::get_file_reply(200, body.clone()), Ok(body.clone()));
    assert_eq!(Volume::get_file_reply(404, body.clone()), Err(VolumeErrors::FileNotFound));
    assert_eq!(
        Volume::get_file_reply(500, b"oops".to_vec()),
        Err(VolumeErrors::InvalidRequest("oops".to_string()))
    );
    assert!(Volume::fetch_ok(200));
    assert!(!Volume::fetch_ok(404));
    assert_eq!(
        Volume::fetch_failure(&vec![0x68, 0xff, 0x69]),
        VolumeErrors::InvalidRequest("h\u{fffd}i".to_string())
    );
}

#[test]
fn store_reply_status() {
    assert_eq!(
        Volume::upload_reply(201, "{\"size\":12}".to_string()),
        Ok("{\"size\":12}".to_string())
    );
    assert_eq!(
        Volume::upload_reply(200, "bad".to_string()),
        Err(VolumeErrors::NotCreated("bad".to_string()))
    );
    assert_eq!(
        Volume::upload_reply(500, "".to_string()),
        Err(VolumeErrors::NotCreated("".to_string()))
    );
}

#[test]
fn delete_reply_status() {
    assert_eq!(Volume::delete_reply(202, "{\"size\":12}".to_string()), Ok("{\"size\":12}".to_string()));
    assert_eq!(
        Volume::delete_reply(200, "gone?".to_string()),
        Err(VolumeErrors::NotAccepted("gone?".to_string()))
    );
    assert_eq!(
        Volume::delete_reply(404, "missing".to_string()),
        Err(VolumeErrors::NotAccepted("missing".to_string()))
    );
}
