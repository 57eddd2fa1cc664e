use omnistream::web::{join_url, push_unique, qr_image_url, tid_name, tid_options};

#[test]
fn category_names() {
    assert_eq!(tid_name(171), "电子竞技");
    assert_eq!(tid_name(182), "影视");
    assert_eq!(tid_name(5), "5");
    assert_eq!(tid_name(65535), "65535");
    assert_eq!(tid_options().len(), 7);
    assert_eq!(tid_options()[1], (17, "单机游戏"));
}

#[test]
fn api_urls_have_one_slash() {
    assert_eq!(join_url("http://h:3000/api///", "//downloads"), "http://h:3000/api/downloads");
    assert_eq!(join_url("http://h/api", "tasks"), "http://h/api/tasks");
    assert_eq!(join_url("", ""), "/");
}

#[test]
fn bases_stay_unique() {
    let mut v = vec!["a".to_string()];
    push_unique(&mut v, "a".to_string());
    push_unique(&mut v, "b".to_string());
    assert_eq!(v, vec!["a".to_string(), "b".to_string()]);
}

#[test]
fn qr_payload_is_percent_encoded() {
    assert_eq!(
        qr_image_url("a b&c"),
        "https://api.qrserver.com/v1/create-qr-code/?size=260x260&data=a%20b%26c"
    );
}
