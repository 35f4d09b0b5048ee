use rollback_core::url::Scheme;
use rollback_core::url::decimal_string;
use rollback_core::url::room_url;

#[test]
fn decimal_writing_of_small_and_large_numbers() {
    assert_eq!(decimal_string(0), "0");
    assert_eq!(decimal_string(7), "7");
    assert_eq!(decimal_string(10), "10");
    assert_eq!(decimal_string(80), "80");
    assert_eq!(decimal_string(65535), "65535");
    assert_eq!(decimal_string(1000000), "1000000");
    assert_eq!(decimal_string(u64::MAX), "18446744073709551615");
}

#[test]
fn url_of_the_demo_room() {
    let url = room_url(Scheme::Ws, "matchbox.ducky.pics", 80, "duckytest", 2);
    assert_eq!(url, "ws://matchbox.ducky.pics:80/duckytest?next=2");
}

#[test]
fn url_with_tls_scheme_and_local_host() {
    let url = room_url(Scheme::Wss, "localhost", 3536, "room", 4);
    assert_eq!(url, "wss://localhost:3536/room?next=4");
}
