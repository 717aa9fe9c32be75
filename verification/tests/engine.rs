use crawl_core::engine::{Acquire, EngineSlot};
use crawl_core::error::CrawlError;

#[test]
fn empty_slot_asks_for_construction() {
    let slot: EngineSlot<u32> = EngineSlot::new(None);
    assert_eq!(slot.plan(), Acquire::Construct);
    assert_eq!(slot.engine(), None);
}

#[test]
fn failed_construction_is_reported_and_not_kept() {
    let mut slot: EngineSlot<u32> = EngineSlot::new(None);
    assert_eq!(slot.settle(None), Err(CrawlError::EngineUnavailable));
    assert_eq!(slot.plan(), Acquire::Construct);
    assert_eq!(slot.settle(Some(7)), Ok(()));
    assert_eq!(slot.plan(), Acquire::Reuse);
    assert_eq!(slot.engine(), Some(&7));
}

#[test]
fn first_engine_is_kept() {
    let mut slot = EngineSlot::new(Some("first".to_string()));
    assert_eq!(slot.plan(), Acquire::Reuse);
    assert_eq!(slot.settle(Some("second".to_string())), Ok(()));
    assert_eq!(slot.engine().map(|e| e.as_str()), Some("first"));
    assert_eq!(slot.settle(None), Ok(()));
    assert_eq!(slot.engine().map(|e| e.as_str()), Some("first"));
}
