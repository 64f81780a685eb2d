use shop_core::cache::{
    all_products_key, product_key, product_key_pattern, SweepAction, SweepFlow, SweepReply,
    CACHE_TTL_SECS, SCAN_BATCH_SIZE,
};
use shop_core::error::AppError;
use shop_core::ids::ProductId;

fn keys(v: &[&str]) -> Vec<String> {
    v.iter().map(|s| s.to_string()).collect()
}

#[test]
fn cache_keys() {
    assert_eq!(all_products_key(), "products:all");
    assert_eq!(product_key_pattern(), "product:*");
    assert_eq!(
        product_key(ProductId(0xa1a2a3a4b1b2c1c2d1d2d3d4d5d6d7d8)),
        "product:a1a2a3a4-b1b2-c1c2-d1d2-d3d4d5d6d7d8"
    );
    assert_eq!(product_key(ProductId(0)), "product:00000000-0000-0000-0000-000000000000");
    assert_eq!(CACHE_TTL_SECS, 300);
    assert_eq!(SCAN_BATCH_SIZE, 100);
}

#[test]
fn sweep_collects_every_scanned_key() {
    let (flow, action) = SweepFlow::begin();
    assert!(matches!(action, SweepAction::Scan { cursor: 0 }));
    let (flow, action) = flow.step(SweepReply::Scanned(Ok((17, keys(&["product:a", "product:b"])))));
    assert!(matches!(action, SweepAction::Scan { cursor: 17 }));
    let (flow, action) = flow.step(SweepReply::Scanned(Ok((0, keys(&["product:c"])))));
    match action {
        SweepAction::Delete(all) => {
            assert_eq!(all, keys(&["products:all", "product:a", "product:b", "product:c"]))
        }
        other => panic!("unexpected action {other:?}"),
    }
    let (_, action) = flow.step(SweepReply::Deleted(Ok(())));
    assert!(matches!(action, SweepAction::Finish(Ok(()))));
}

#[test]
fn sweep_with_no_product_keys_still_deletes_the_list() {
    let (flow, _) = SweepFlow::begin();
    let (_, action) = flow.step(SweepReply::Scanned(Ok((0, Vec::new()))));
    match action {
        SweepAction::Delete(all) => assert_eq!(all, keys(&["products:all"])),
        other => panic!("unexpected action {other:?}"),
    }
}

#[test]
fn sweep_stops_at_a_scan_error() {
    let (flow, _) = SweepFlow::begin();
    let (flow, action) =
        flow.step(SweepReply::Scanned(Err(AppError::Internal("redis".to_string()))));
    assert!(matches!(action, SweepAction::Finish(Err(AppError::Internal(_)))));
    assert!(matches!(flow, SweepFlow::Done));
}

#[test]
fn sweep_reports_a_delete_error() {
    let (flow, _) = SweepFlow::begin();
    let (flow, _) = flow.step(SweepReply::Scanned(Ok((0, Vec::new()))));
    let (_, action) = flow.step(SweepReply::Deleted(Err(AppError::Internal("del".to_string()))));
    assert!(matches!(action, SweepAction::Finish(Err(AppError::Internal(ref m))) if m == "del"));
}
