use dbbridge::pool::{CheckoutOutcome, Pool};
use dbbridge::registry::{connection_target, PoolRegistry};
use dbbridge::MAX_POOL_SIZE;

fn s(x: &str) -> String {
    x.to_string()
}

#[test]
fn connection_target_uses_fixed_template() {
    let expected =
        "Driver={ODBC Driver 17 for SQL Server};Server=mjm-sql01;Database=Tenant42;Trusted_Connection=Yes;";
    assert_eq!(connection_target("Tenant42"), expected);
}

#[test]
fn get_or_create_returns_same_pool_for_same_name() {
    // Two calls for one name converge on a single pool entry.
    let mut reg = PoolRegistry::new();
    let a = reg.get_or_create(&s("master"));
    let b = reg.get_or_create(&s("master"));
    assert_eq!(a, b);
    assert_eq!(reg.entries.len(), 1);
    assert_eq!(reg.entries[0].name, s("master"));
    assert_eq!(reg.entries[0].pool.max_size, MAX_POOL_SIZE);
    assert_eq!(reg.entries[0].pool.target, connection_target("master"));
}

#[test]
fn get_or_create_distinguishes_names() {
    let mut reg = PoolRegistry::new();
    let a = reg.get_or_create(&s("A"));
    let b = reg.get_or_create(&s("B"));
    assert_ne!(a, b);
    assert_eq!(reg.entries.len(), 2);
}

#[test]
fn checkout_is_isolated_per_database() {
    // Checkouts against "A" never change the idle count of "B".
    let mut reg = PoolRegistry::new();
    let a = reg.get_or_create(&s("A"));
    let b = reg.get_or_create(&s("B"));

    // Give B one idle connection.
    match reg.checkout_at(b) {
        CheckoutOutcome::Connect => {},
        _ => panic!("fresh pool must offer a connect slot"),
    }
    let conn_b = reg.attach_at(b);
    reg.release_at(b, conn_b, true);
    assert_eq!(reg.entries[b].pool.idle.len(), 1);

    // Work A hard; B's idle count must not move.
    for _ in 0..5 {
        match reg.checkout_at(a) {
            CheckoutOutcome::Connect => {
                let c = reg.attach_at(a);
                reg.release_at(a, c, false);
            },
            CheckoutOutcome::Ready(c) => {
                reg.release_at(a, c, true);
            },
            CheckoutOutcome::Wait => panic!("pool A cannot be saturated here"),
        }
        assert_eq!(reg.entries[b].pool.idle.len(), 1);
    }
}

#[test]
fn capacity_bound_holds_under_oversubscription() {
    // max_size + k concurrent checkouts: at most max_size are granted, the
    // rest wait, and the live count never exceeds the cap.
    let k = 5;
    let mut pool = Pool::new(s("target"), MAX_POOL_SIZE);
    let mut granted = 0;
    let mut waiting = 0;
    for _ in 0..(MAX_POOL_SIZE + k) {
        match pool.checkout() {
            CheckoutOutcome::Connect => granted += 1,
            CheckoutOutcome::Ready(_) => granted += 1,
            CheckoutOutcome::Wait => waiting += 1,
        }
        let live = pool.idle.len() + pool.in_use + pool.connecting;
        assert!(live <= MAX_POOL_SIZE);
    }
    assert_eq!(granted, MAX_POOL_SIZE);
    assert_eq!(waiting, k);
}

#[test]
fn checkout_prefers_idle_connection() {
    let mut pool = Pool::new(s("t"), 4);
    match pool.checkout() {
        CheckoutOutcome::Connect => {},
        _ => panic!("empty pool must ask for a connect"),
    }
    let c = pool.attach();
    let id = c.id;
    pool.release(c, true);
    assert_eq!(pool.idle.len(), 1);
    match pool.checkout() {
        CheckoutOutcome::Ready(c2) => assert_eq!(c2.id, id),
        _ => panic!("idle connection must be reused"),
    }
    assert_eq!(pool.idle.len(), 0);
    assert_eq!(pool.in_use, 1);
}

#[test]
fn release_discards_unhealthy_connection() {
    let mut pool = Pool::new(s("t"), 4);
    pool.checkout();
    let c = pool.attach();
    pool.release(c, false);
    assert_eq!(pool.idle.len(), 0);
    assert_eq!(pool.in_use, 0);
    // The replacement is admitted lazily on the next checkout.
    match pool.checkout() {
        CheckoutOutcome::Connect => {},
        _ => panic!("discarded connection frees a slot for a new connect"),
    }
}

#[test]
fn attach_mints_fresh_identifiers() {
    let mut pool = Pool::new(s("t"), 4);
    pool.checkout();
    let c1 = pool.attach();
    pool.checkout();
    let c2 = pool.attach();
    assert_ne!(c1.id, c2.id);
}

#[test]
fn connect_failure_frees_the_slot() {
    let mut pool = Pool::new(s("t"), 1);
    match pool.checkout() {
        CheckoutOutcome::Connect => {},
        _ => panic!("empty pool must ask for a connect"),
    }
    match pool.checkout() {
        CheckoutOutcome::Wait => {},
        _ => panic!("cap of one: second checkout waits"),
    }
    pool.connect_failed();
    match pool.checkout() {
        CheckoutOutcome::Connect => {},
        _ => panic!("freed slot admits a new connect"),
    }
}

#[test]
fn has_broken_is_always_false() {
    let mut pool = Pool::new(s("t"), 2);
    pool.checkout();
    let c = pool.attach();
    assert!(!pool.has_broken(&c));
}
