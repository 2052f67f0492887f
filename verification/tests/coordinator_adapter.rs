use std::sync::Arc;

use boson_coordinator::coordinator_adapter::{found_or_none, listed_or_empty, or_fallback};
use boson_coordinator::CoordinatorAdapter;

#[test]
fn adapter_runtime_is_the_wrapped_runtime() {
    let runtime = Arc::new(String::from("runtime"));
    let adapter = CoordinatorAdapter::new(Arc::clone(&runtime));
    let got = adapter.runtime();
    assert!(Arc::ptr_eq(&got, &runtime));
    let exposed = adapter.as_boson_runtime().expect("adapter always exposes its runtime");
    assert!(Arc::ptr_eq(&exposed, &runtime));
}

#[test]
fn lookup_failure_reads_as_absent() {
    assert_eq!(found_or_none::<u32, &str>(Err("backend down")), None);
    assert_eq!(found_or_none::<u32, &str>(Ok(None)), None);
    assert_eq!(found_or_none::<u32, &str>(Ok(Some(4))), Some(4));
}

#[test]
fn listing_failure_reads_as_empty() {
    assert!(listed_or_empty::<u32, &str>(Err("backend down")).is_empty());
    assert_eq!(listed_or_empty::<u32, &str>(Ok(vec![1, 2, 3])), vec![1, 2, 3]);
}

#[test]
fn count_failure_reads_as_zero() {
    assert_eq!(or_fallback::<u64, &str>(Err("backend down"), 0), 0);
    assert_eq!(or_fallback::<u64, &str>(Ok(17), 0), 17);
    assert_eq!(or_fallback::<(u32, u32), &str>(Err("x"), (0, 0)), (0, 0));
    assert_eq!(or_fallback::<(u32, u32), &str>(Ok((5, 3)), (0, 0)), (5, 3));
}
