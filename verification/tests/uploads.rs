use backend::uploads::{object_size, read_capacity, upload_key, Client};

#[test]
fn object_url_formula() {
    let client = Client::new((), "market-images".to_string(), "us-east-2".to_string());
    assert_eq!(
        client.url("items/lamp.png"),
        "https://market-images.s3.us-east-2.amazonaws.com/items/lamp.png"
    );
    assert_eq!(client.url(""), "https://market-images.s3.us-east-2.amazonaws.com/");
    assert_eq!(client.bucket_name(), "market-images");
    assert_eq!(*client.s3(), ());
}

#[test]
fn upload_keys() {
    assert_eq!(upload_key("items/", &Some("lamp.png".to_string())), Some("items/lamp.png".to_string()));
    assert_eq!(upload_key("", &Some("a".to_string())), Some("a".to_string()));
    assert_eq!(upload_key("items/", &None), None);
}

#[test]
fn object_sizes() {
    assert_eq!(object_size(Some(0)), Some(0));
    assert_eq!(object_size(Some(4096)), Some(4096));
    assert_eq!(object_size(Some(i64::MAX)), Some(i64::MAX as u64));
    assert_eq!(object_size(Some(-1)), None);
    assert_eq!(object_size(Some(i64::MIN)), None);
    assert_eq!(object_size(None), None);
}

#[test]
fn read_capacities() {
    assert_eq!(read_capacity(None), Some(1024));
    assert_eq!(read_capacity(Some(0)), Some(0));
    assert_eq!(read_capacity(Some(77)), Some(77));
}
