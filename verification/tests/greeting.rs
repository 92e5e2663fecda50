use mveng::greeting::{hello, mveng};
use mveng::response::{Body, HelloResponse, MvengResponse, Reply};

#[test]
fn hello_is_fixed() {
    let expected = Reply {
        status: 200,
        body: Body::Hello(HelloResponse {
            message: "Hello, World!".to_string(),
            status: "success".to_string(),
        }),
    };
    assert_eq!(hello(), expected);
    assert_eq!(hello(), hello());
}

#[test]
fn mveng_is_fixed() {
    let expected = Reply {
        status: 200,
        body: Body::Mveng(MvengResponse {
            greeting: "🌍 Akwaaba! Welcome, friend!".to_string(),
            wisdom: "Nkukuma nkobe ye, a si nkukuma nda - The storyteller is like a tree, rooted in wisdom"
                .to_string(),
            from: "Mveng, your African storyteller".to_string(),
        }),
    };
    assert_eq!(mveng(), expected);
    assert_eq!(mveng(), mveng());
}

#[test]
fn greetings_succeed() {
    assert!(hello().is_success());
    assert!(mveng().is_success());
}
