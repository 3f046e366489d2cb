use wolrus::effective_destination;
use wolrus::send_outcome;
use wolrus::wake_on_lan;
use wolrus::Error;
use wolrus::SendErrorKind;
use wolrus::DEFAULT_PORT;

#[test]
fn wake_defaults_succeed() {
    // Broadcast WoL on the local network, default destination.
    let mac = [0, 1, 2, 3, 4, 5];
    assert!(wake_on_lan(mac, None, None).is_ok());
}

#[test]
fn wake_subnet_broadcast_succeeds() {
    // Broadcast WoL on the local subnet.
    let mac = [0, 1, 2, 3, 4, 5];
    assert!(wake_on_lan(mac, Some([192, 168, 0, 255]), None).is_ok());
}

#[test]
fn wake_unspecified_address_fails() {
    let mac = [0, 1, 2, 3, 4, 5];
    let r = wake_on_lan(mac, Some([0, 0, 0, 0]), None);
    assert_eq!(r, Err(Error::SendError(SendErrorKind::Unaddressable)));
}

#[test]
fn wake_zero_port_fails() {
    let mac = [0, 1, 2, 3, 4, 5];
    let r = wake_on_lan(mac, None, Some(0));
    assert_eq!(r, Err(Error::SendError(SendErrorKind::Unaddressable)));
}

#[test]
fn default_destination_is_limited_broadcast_discard() {
    let (addr, port) = effective_destination(None, None);
    assert_eq!(addr, [255, 255, 255, 255]);
    assert_eq!(port, 9);
    assert_eq!(DEFAULT_PORT, 9);
}

#[test]
fn explicit_destination_is_kept() {
    let (addr, port) = effective_destination(Some([192, 168, 10, 255]), Some(7));
    assert_eq!(addr, [192, 168, 10, 255]);
    assert_eq!(port, 7);
}

#[test]
fn send_outcome_full_send_is_ok() {
    assert!(send_outcome(Some(102), 102).is_ok());
}

#[test]
fn send_outcome_short_send_is_truncated() {
    let r = send_outcome(Some(50), 102);
    assert_eq!(r, Err(Error::SendError(SendErrorKind::Truncated)));
}

#[test]
fn send_outcome_refused_send() {
    let r = send_outcome(None, 102);
    assert_eq!(r, Err(Error::SendError(SendErrorKind::Refused)));
}
