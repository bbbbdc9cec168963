use remote_session::control::{on_command, shutdown_report, ShutdownFlag};
use remote_session::registry::{ClientRegistry, PeerAddress};
use remote_session::websocket::{Gui2WsMessage, Ws2GuiMessage};

fn v4(last: u32, port: u16) -> PeerAddress {
    PeerAddress::V4 { host: 0xC0A8_0000 + last, port }
}

#[test]
fn new_registry_is_empty() {
    let registry: ClientRegistry<u32> = ClientRegistry::new();
    assert_eq!(registry.len(), 0);
    assert!(!registry.contains(&v4(1, 80)));
    assert_eq!(registry.get(&v4(1, 80)), None);
    assert_eq!(registry.address_at(0), None);
    assert_eq!(registry.handle_at(0), None);
}

#[test]
fn insert_registers_one_entry() {
    let mut registry = ClientRegistry::new();
    assert_eq!(registry.insert(v4(1, 5000), "a"), None);
    assert_eq!(registry.len(), 1);
    assert!(registry.contains(&v4(1, 5000)));
    assert_eq!(registry.get(&v4(1, 5000)), Some(&"a"));
}

#[test]
fn insert_overwrites_and_never_duplicates() {
    let mut registry = ClientRegistry::new();
    assert_eq!(registry.insert(v4(1, 5000), 1), None);
    assert_eq!(registry.insert(v4(2, 5000), 2), None);
    assert_eq!(registry.insert(v4(1, 5000), 3), Some(1));
    assert_eq!(registry.insert(v4(1, 5000), 4), Some(3));
    assert_eq!(registry.len(), 2);
    assert_eq!(registry.get(&v4(1, 5000)), Some(&4));
    assert_eq!(registry.get(&v4(2, 5000)), Some(&2));
    let mut seen = 0;
    for index in 0..registry.len() {
        if registry.address_at(index) == Some(v4(1, 5000)) {
            seen += 1;
        }
    }
    assert_eq!(seen, 1);
}

#[test]
fn addresses_differ_by_every_field() {
    let mut registry = ClientRegistry::new();
    let six = PeerAddress::V6 { host6: 1, port: 80, flowinfo: 0, scope_id: 0 };
    registry.insert(v4(1, 80), 0);
    registry.insert(v4(1, 81), 1);
    registry.insert(v4(2, 80), 2);
    registry.insert(six, 3);
    registry.insert(PeerAddress::V6 { host6: 1, port: 80, flowinfo: 1, scope_id: 0 }, 4);
    registry.insert(PeerAddress::V6 { host6: 1, port: 80, flowinfo: 0, scope_id: 1 }, 5);
    assert_eq!(registry.len(), 6);
    assert_eq!(registry.get(&six), Some(&3));
}

#[test]
fn entries_keep_the_order_of_registration() {
    let mut registry = ClientRegistry::new();
    registry.insert(v4(3, 1), "c");
    registry.insert(v4(1, 1), "a");
    registry.insert(v4(2, 1), "b");
    registry.insert(v4(1, 1), "again");
    assert_eq!(registry.address_at(0), Some(v4(3, 1)));
    assert_eq!(registry.address_at(1), Some(v4(1, 1)));
    assert_eq!(registry.address_at(2), Some(v4(2, 1)));
    assert_eq!(registry.address_at(3), None);
    assert_eq!(registry.handle_at(1), Some(&"again"));
    assert_eq!(registry.handle_at(3), None);
}

#[test]
fn remove_takes_the_entry_out() {
    let mut registry = ClientRegistry::new();
    registry.insert(v4(1, 1), 10);
    registry.insert(v4(2, 1), 20);
    registry.insert(v4(3, 1), 30);
    assert_eq!(registry.remove(&v4(2, 1)), Some(20));
    assert_eq!(registry.remove(&v4(2, 1)), None);
    assert_eq!(registry.len(), 2);
    assert!(!registry.contains(&v4(2, 1)));
    assert_eq!(registry.address_at(0), Some(v4(1, 1)));
    assert_eq!(registry.address_at(1), Some(v4(3, 1)));
    assert_eq!(registry.get(&v4(3, 1)), Some(&30));
}

#[test]
fn flag_starts_lowered_and_stays_raised() {
    let mut flag = ShutdownFlag::new();
    assert!(!flag.is_raised());
    flag.raise();
    assert!(flag.is_raised());
    flag.raise();
    assert!(flag.is_raised());
}

#[test]
fn shutdown_reports_each_failure_in_order() {
    let outcomes = vec![
        Ok(()),
        Err("broken pipe".to_string()),
        Ok(()),
        Err("not connected".to_string()),
    ];
    assert_eq!(
        shutdown_report(&outcomes),
        vec![
            Ws2GuiMessage::Error("Could not shutdown websocket: broken pipe".to_string()),
            Ws2GuiMessage::Error("Could not shutdown websocket: not connected".to_string()),
        ]
    );
    assert_eq!(shutdown_report(&vec![]), vec![]);
    assert_eq!(shutdown_report(&vec![Ok(()), Ok(())]), vec![]);
}

#[test]
fn shutdown_command_closes_every_client() {
    let mut registry = ClientRegistry::new();
    registry.insert(v4(1, 1), 1u32);
    registry.insert(v4(2, 1), 2u32);
    registry.insert(v4(3, 1), 3u32);
    let mut flag = ShutdownFlag::new();
    let closed = std::cell::RefCell::new(Vec::new());
    let reports = on_command(Some(Gui2WsMessage::Shutdown), &registry, &mut flag, |handle| {
        closed.borrow_mut().push(*handle);
        if *handle == 2 {
            Err("reset by peer".to_string())
        } else {
            Ok(())
        }
    });
    assert_eq!(closed.into_inner(), vec![1, 2, 3]);
    assert_eq!(
        reports,
        vec![Ws2GuiMessage::Error("Could not shutdown websocket: reset by peer".to_string())]
    );
    assert!(flag.is_raised());
}

#[test]
fn closed_command_channel_means_shutdown() {
    let mut registry = ClientRegistry::new();
    registry.insert(v4(1, 1), 1u32);
    let mut flag = ShutdownFlag::new();
    let calls = std::cell::Cell::new(0);
    let reports = on_command(None, &registry, &mut flag, |_handle| {
        calls.set(calls.get() + 1);
        Ok(())
    });
    assert_eq!(calls.get(), 1);
    assert_eq!(reports, vec![]);
    assert!(flag.is_raised());
}

#[test]
fn shutdown_of_an_empty_registry_raises_the_flag() {
    let registry: ClientRegistry<u32> = ClientRegistry::new();
    let mut flag = ShutdownFlag::new();
    let reports = on_command(Some(Gui2WsMessage::Shutdown), &registry, &mut flag, |_handle| {
        Err("never called".to_string())
    });
    assert_eq!(reports, vec![]);
    assert!(flag.is_raised());
}

#[test]
fn serial_numbers_count_up_with_each_registration() {
    let mut registry = ClientRegistry::new();
    assert_eq!(registry.next_serial(), 0);
    registry.insert(v4(1, 1), "a");
    assert_eq!(registry.next_serial(), 1);
    registry.insert(v4(1, 1), "b");
    assert_eq!(registry.next_serial(), 2);
    registry.insert(v4(2, 1), "c");
    assert_eq!(registry.next_serial(), 3);
    registry.remove(&v4(2, 1));
    assert_eq!(registry.next_serial(), 3);
    assert_eq!(registry.withdraw(&v4(1, 1), 1), Some("b"));
    assert_eq!(registry.next_serial(), 3);
}

#[test]
fn withdraw_takes_only_the_registration_named() {
    let mut registry = ClientRegistry::new();
    registry.insert(v4(1, 1), "old");
    registry.insert(v4(2, 1), "other");
    registry.insert(v4(1, 1), "new");
    assert_eq!(registry.withdraw(&v4(1, 1), 0), None);
    assert_eq!(registry.withdraw(&v4(1, 1), 1), None);
    assert_eq!(registry.withdraw(&v4(3, 1), 2), None);
    assert_eq!(registry.len(), 2);
    assert_eq!(registry.get(&v4(1, 1)), Some(&"new"));
    assert_eq!(registry.withdraw(&v4(1, 1), 2), Some("new"));
    assert_eq!(registry.withdraw(&v4(1, 1), 2), None);
    assert_eq!(registry.withdraw(&v4(2, 1), 1), Some("other"));
    assert_eq!(registry.len(), 0);
}

#[test]
fn shutdown_reaches_the_client_that_registered_last() {
    let mut registry = ClientRegistry::new();
    registry.insert(v4(1, 1), 1u32);
    registry.insert(v4(1, 1), 2u32);
    assert_eq!(registry.withdraw(&v4(1, 1), 0), None);
    let mut flag = ShutdownFlag::new();
    let closed = std::cell::RefCell::new(Vec::new());
    on_command(Some(Gui2WsMessage::Shutdown), &registry, &mut flag, |handle| {
        closed.borrow_mut().push(*handle);
        Ok(())
    });
    assert_eq!(closed.into_inner(), vec![2]);
}
