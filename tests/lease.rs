use kroeg::lease::{LeasedConnection, Teardown, ViewHandle, ViewKind};

#[test]
fn lease_hands_out_the_same_views() {
    let l = LeasedConnection::new(7);
    assert!(l.is_live());
    assert_eq!(l.id(), 7);
    let first = l.get().unwrap();
    let second = l.get().unwrap();
    assert_eq!(first, second);
    assert_eq!(first.0, ViewHandle { lease: 7, kind: ViewKind::Entity });
    assert_eq!(first.1, ViewHandle { lease: 7, kind: ViewKind::Queue });
    assert!(l.admits(&first.0));
    assert!(l.admits(&first.1));
    assert!(!l.admits(&ViewHandle { lease: 8, kind: ViewKind::Entity }));
}

#[test]
fn dispose_invalidates_views_then_releases_once() {
    let mut l = LeasedConnection::new(3);
    let (entity, queue) = l.get().unwrap();
    let steps = l.dispose();
    assert_eq!(steps, vec![Teardown::InvalidateViews, Teardown::ReleaseConnection]);
    assert!(!l.is_live());
    assert!(!l.admits(&entity));
    assert!(!l.admits(&queue));
    assert!(l.get().is_none());
    let again = l.dispose();
    assert!(again.is_empty());
    assert!(!l.is_live());
}
