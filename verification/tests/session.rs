use printrs::codec::{Command, Status};
use printrs::session::{Printer, PrinterError, ResponseSupport};

#[test]
fn fresh_session_is_not_connected() {
    let p = Printer::new("192.168.0.172".to_string(), 9100);
    assert!(!p.is_connected());
    assert!(!p.needs_disconnect_before_connect());
}

#[test]
fn fresh_session_rejects_send_with_not_connected() {
    let p = Printer::new("192.168.0.172".to_string(), 9100);
    assert_eq!(p.require_connected(), Err(PrinterError::NotConnected));
    assert_eq!(
        p.prepare_command(&Command::Initialize),
        Err(PrinterError::NotConnected)
    );
}

#[test]
fn session_keeps_its_address() {
    let p = Printer::new("printer.local".to_string(), 9100);
    assert_eq!(p.ip().as_str(), "printer.local");
    assert_eq!(p.port(), 9100);
}

#[test]
fn successful_connect_marks_the_session_connected() {
    let mut p = Printer::new("printer.local".to_string(), 9100);
    assert_eq!(p.complete_connect(true), Ok(()));
    assert!(p.is_connected());
}

#[test]
fn failed_connect_reports_connection_error_and_stays_disconnected() {
    let mut p = Printer::new("printer.local".to_string(), 9100);
    assert_eq!(p.complete_connect(false), Err(PrinterError::ConnectionError));
    assert!(!p.is_connected());
    assert_eq!(p.require_connected(), Err(PrinterError::NotConnected));
}

#[test]
fn reconnect_demands_teardown_of_the_live_transport_first() {
    let mut p = Printer::new("printer.local".to_string(), 9100);
    assert_eq!(p.complete_connect(true), Ok(()));
    assert!(p.needs_disconnect_before_connect());
    assert_eq!(p.disconnect(), Ok(()));
    assert!(!p.needs_disconnect_before_connect());
    assert_eq!(p.complete_connect(true), Ok(()));
    assert!(p.is_connected());
}

#[test]
fn disconnect_then_send_is_rejected_with_not_connected() {
    let mut p = Printer::new("printer.local".to_string(), 9100);
    assert_eq!(p.complete_connect(true), Ok(()));
    assert_eq!(p.disconnect(), Ok(()));
    assert!(!p.is_connected());
    assert_eq!(p.require_connected(), Err(PrinterError::NotConnected));
    assert_eq!(
        p.prepare_command(&Command::CutPaper),
        Err(PrinterError::NotConnected)
    );
}

#[test]
fn strict_disconnect_on_a_disconnected_session_reports_not_connected() {
    let mut p = Printer::new("printer.local".to_string(), 9100);
    assert_eq!(p.disconnect(), Err(PrinterError::NotConnected));
    assert_eq!(p.complete_connect(true), Ok(()));
    assert_eq!(p.disconnect(), Ok(()));
    assert_eq!(p.disconnect(), Err(PrinterError::NotConnected));
}

#[test]
fn failed_write_surfaces_write_error_and_disconnects() {
    let mut p = Printer::new("printer.local".to_string(), 9100);
    assert_eq!(p.complete_connect(true), Ok(()));
    assert_eq!(p.complete_send(false), Err(PrinterError::WriteError));
    assert!(!p.is_connected());
    assert_eq!(p.require_connected(), Err(PrinterError::NotConnected));
}

#[test]
fn completed_write_leaves_the_session_connected() {
    let mut p = Printer::new("printer.local".to_string(), 9100);
    assert_eq!(p.complete_connect(true), Ok(()));
    assert_eq!(p.complete_send(true), Ok(()));
    assert!(p.is_connected());
}

#[test]
fn prepare_command_on_a_connected_session_hands_back_the_wire_bytes() {
    let mut p = Printer::new("printer.local".to_string(), 9100);
    assert_eq!(p.complete_connect(true), Ok(()));
    assert_eq!(p.require_connected(), Ok(()));
    assert_eq!(
        p.prepare_command(&Command::CutPaper),
        Ok(vec![0x1c, b'V', b'1'])
    );
    assert_eq!(
        p.prepare_command(&Command::PrintText("AB".to_string())),
        Ok(vec![b'0', b'A', b'A', b'B'])
    );
    assert_eq!(
        p.prepare_command(&Command::QueryStatus(Status::Paper)),
        Ok(vec![0x04, 0x10, 0x04])
    );
}

#[test]
fn response_reading_is_an_explicit_extension_point() {
    let p = Printer::new("printer.local".to_string(), 9100);
    assert_eq!(p.response_support(), ResponseSupport::NotImplemented);
}
