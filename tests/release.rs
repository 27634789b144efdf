use timed_release::{now, AccessError, Address, Context, Release};

/// A fresh account with its own address, and a context with it as the caller.
fn account_ctx(id: u8) -> (Address, Context) {
    let addr = Address([id; 20]);
    (addr, Context::with_sender(addr))
}

#[test]
fn greeter_cannot_access_future_message() {
    let (_author_address, author_ctx) = account_ctx(1);
    let (_viewer_address, viewer_ctx) = account_ctx(2);

    let description = "My big news";
    let message = "I'm in love with kimchi.";
    let release_time = now() + 100000;

    let release = Release::new(&author_ctx, description.to_string(), message.to_string(), release_time);

    assert!(release.message(&author_ctx).is_err());
    assert!(release.message(&viewer_ctx).is_err());
}

#[test]
fn greeter_can_access_past_message() {
    let (_author_address, author_ctx) = account_ctx(1);
    let (_viewer_address, viewer_ctx) = account_ctx(2);

    let description = "My big news";
    let message = "I'm in love with kimchi.";
    let release_time = now() - 100000;

    let release = Release::new(&author_ctx, description.to_string(), message.to_string(), release_time);

    assert_eq!(release.message(&author_ctx).unwrap(), message);
    assert_eq!(release.message(&viewer_ctx).unwrap(), message);
}

#[test]
fn greeter_author_can_change_message_release_time() {
    let (_author_address, author_ctx) = account_ctx(1);
    let (_viewer_address, viewer_ctx) = account_ctx(2);

    let description = "My big news";
    let message = "I'm in love with kimchi.";
    let release_time = now() + 100000;

    let mut release =
        Release::new(&author_ctx, description.to_string(), message.to_string(), release_time);

    assert!(release.message(&author_ctx).is_err());
    assert!(release.message(&viewer_ctx).is_err());

    let new_release_time = now() - 100000;

    assert!(release.change_release_time(&viewer_ctx, new_release_time).is_err());
    release.change_release_time(&author_ctx, new_release_time).unwrap();

    assert_eq!(release.message(&author_ctx).unwrap(), message);
    assert_eq!(release.message(&viewer_ctx).unwrap(), message);
}

#[test]
fn permissive_non_author_is_unauthorized() {
    let (_, author_ctx) = account_ctx(1);
    let (_, viewer_ctx) = account_ctx(2);
    let mut release = Release::new(&author_ctx, "d".to_string(), "m".to_string(), 500);
    assert!(matches!(
        release.change_release_time_at(&viewer_ctx, 100, 10),
        Err(AccessError::Unauthorized)
    ));
    // The failed request left the release time alone.
    assert!(matches!(release.message_at(&viewer_ctx, 500), Err(AccessError::NotYetReleased)));
    assert_eq!(release.message_at(&viewer_ctx, 501).unwrap(), "m");
}

#[test]
fn permissive_author_can_rehide_public_message() {
    let (_, author_ctx) = account_ctx(1);
    let (_, viewer_ctx) = account_ctx(2);
    let mut release = Release::new(&author_ctx, "d".to_string(), "m".to_string(), 100);
    assert_eq!(release.message_at(&viewer_ctx, 150).unwrap(), "m");
    release.change_release_time_at(&author_ctx, 150, 1000).unwrap();
    assert!(matches!(release.message_at(&viewer_ctx, 150), Err(AccessError::NotYetReleased)));
    assert!(matches!(release.message_at(&viewer_ctx, 1000), Err(AccessError::NotYetReleased)));
    assert_eq!(release.message_at(&viewer_ctx, 1001).unwrap(), "m");
}

#[test]
fn permissive_scenario_with_real_clock() {
    let (_, author_ctx) = account_ctx(1);
    let (_, viewer_ctx) = account_ctx(2);
    let message = "I'm in love with kimchi.";
    let mut release = Release::new(&author_ctx, "My big news".to_string(), message.to_string(), now() + 100000);
    assert!(matches!(
        release.change_release_time(&viewer_ctx, now() - 100000),
        Err(AccessError::Unauthorized)
    ));
    assert!(release.change_release_time(&author_ctx, now() - 100000).is_ok());
    assert_eq!(release.message(&viewer_ctx).unwrap(), message);
    assert_eq!(release.message(&author_ctx).unwrap(), message);
    // And back into hiding, even though it was public.
    assert!(release.change_release_time(&author_ctx, now() + 100000).is_ok());
    assert!(matches!(release.message(&viewer_ctx), Err(AccessError::NotYetReleased)));
}
