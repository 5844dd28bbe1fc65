use graffiti::routes::lookup;

#[test]
fn lookup_wikipedia() {
    let route = lookup("/wikipedia").unwrap();
    assert_eq!(route.base, "https://en.wikipedia.org/w/api.php");
    assert_eq!(route.host, "en.wikipedia.org");
}

#[test]
fn lookup_nethack() {
    let route = lookup("/nethack").unwrap();
    assert_eq!(route.base, "https://nethackwiki.com/w/api.php");
    assert_eq!(route.host, "nethackwiki.com");
}

#[test]
fn lookup_xkcd() {
    let route = lookup("/xkcd").unwrap();
    assert_eq!(route.base, "https://explainxkcd.com/wiki/api.php");
    assert_eq!(route.host, "explainxkcd.com");
}

#[test]
fn lookup_miss() {
    assert!(lookup("/missing").is_none());
    assert!(lookup("/").is_none());
    assert!(lookup("").is_none());
    assert!(lookup("/wikipedia/").is_none());
    assert!(lookup("wikipedia").is_none());
}
