use santa::cached::Cached;

#[test]
fn cached_recomputes_only_on_new_key() {
    let mut c: Cached<u32, String> = Cached::new();
    assert_eq!(c.key(), None);
    assert_eq!(c.value(), None);
    c.update(Some(3), |k| format!("v{}", k));
    assert_eq!(c.key(), Some(3));
    assert_eq!(c.value(), Some(&"v3".to_string()));
    let mut calls = 0;
    c.update(Some(3), |k| {
        calls += 1;
        format!("w{}", k)
    });
    assert_eq!(calls, 0);
    assert_eq!(c.value(), Some(&"v3".to_string()));
    c.update(Some(4), |k| format!("w{}", k));
    assert_eq!(c.value(), Some(&"w4".to_string()));
    c.update(None, |k| format!("x{}", k));
    assert_eq!(c.key(), None);
    c.update(Some(5), |k| format!("y{}", k));
    c.clear();
    assert_eq!(c.value(), None);
}
