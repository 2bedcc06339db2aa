use x11_get_windows::ConnectionFailed;
use x11_get_windows::NotSupported;
use x11_get_windows::Null;
use x11_get_windows::connection::{Connection, Ledger};
use x11_get_windows::event::{ButtonType, KeyType};
use x11_get_windows::prop::{PropBuffer, decode_ids};
use x11_get_windows::session::{MemoCell, Session};
use x11_get_windows::window::{Window, WindowAttributes, XColor, XImg};

fn words32(ids: &[u64]) -> Vec<u8> {
    let mut data = Vec::new();
    for id in ids {
        let mut v = *id;
        for _ in 0..8 {
            data.push((v & 0xff) as u8);
            v >>= 8;
        }
    }
    data
}

#[test]
fn open_then_close_balances_ledger() {
    let mut ledger = Ledger::new();
    let conn = Connection::open(true, &mut ledger).unwrap();
    assert!(!ledger.is_balanced());
    conn.close(&mut ledger);
    assert!(ledger.is_balanced());
}

#[test]
fn refused_open_is_connection_failed_and_leaks_nothing() {
    let mut ledger = Ledger::new();
    let r = Connection::open(false, &mut ledger);
    assert_eq!(r.unwrap_err(), ConnectionFailed);
    assert!(ledger.is_balanced());
}

#[test]
fn decode_32_preserves_count_and_order() {
    let data = words32(&[10, 20, 30]);
    let ids = decode_ids(&data, 32).unwrap();
    assert_eq!(ids, vec![10, 20, 30]);
}

#[test]
fn decode_16_preserves_count_and_order() {
    // 0x0102 then 0xff00, least-significant byte first.
    let data = vec![0x02, 0x01, 0x00, 0xff];
    let ids = decode_ids(&data, 16).unwrap();
    assert_eq!(ids, vec![0x0102, 0xff00]);
}

#[test]
fn decode_8_preserves_count_and_order() {
    let data = vec![5, 6, 7];
    let ids = decode_ids(&data, 8).unwrap();
    assert_eq!(ids, vec![5, 6, 7]);
}

#[test]
fn decode_rejects_unsupported_width() {
    let data = vec![1, 2, 3, 4];
    assert_eq!(decode_ids(&data, 7).unwrap_err(), NotSupported);
}

#[test]
fn get_windows_returns_server_order() {
    let session = Session::new();
    let mut ledger = Ledger::new();
    let buf = PropBuffer::acquire(33, 32, words32(&[10, 20]), &mut ledger);
    let ws = session.get_windows(buf, &mut ledger).unwrap();
    assert_eq!(ws, vec![Window { id: 10 }, Window { id: 20 }]);
    assert!(ledger.is_balanced());
}

#[test]
fn get_windows_wrong_type_not_supported_and_released() {
    let session = Session::new();
    let mut ledger = Ledger::new();
    let buf = PropBuffer::acquire(6, 32, words32(&[10]), &mut ledger);
    assert_eq!(session.get_windows(buf, &mut ledger).unwrap_err(), NotSupported);
    assert!(ledger.is_balanced());
}

#[test]
fn get_windows_bad_width_not_supported_and_released_once() {
    let session = Session::new();
    let mut ledger = Ledger::new();
    let buf = PropBuffer::acquire(33, 64, words32(&[10]), &mut ledger);
    assert_eq!(session.get_windows(buf, &mut ledger).unwrap_err(), NotSupported);
    assert_eq!(ledger.allocs, 1);
    assert_eq!(ledger.frees, 1);
}

#[test]
fn get_window_by_name_bad_width_absent_and_released_once() {
    let session = Session::new();
    let mut ledger = Ledger::new();
    let buf = PropBuffer::acquire(33, 64, words32(&[10]), &mut ledger);
    let titles = vec![Some(b"Chrome".to_vec())];
    let name = b"Chrome".to_vec();
    assert_eq!(session.get_window_by_name(buf, &titles, &name, &mut ledger), None);
    assert_eq!(ledger.allocs, 1);
    assert_eq!(ledger.frees, 1);
}

#[test]
fn get_window_by_name_returns_first_match() {
    let session = Session::new();
    let mut ledger = Ledger::new();
    let buf = PropBuffer::acquire(33, 32, words32(&[10, 20, 30]), &mut ledger);
    let titles = vec![
        Some(b"Chrome".to_vec()),
        Some(b"Files".to_vec()),
        Some(b"Chrome".to_vec()),
    ];
    let name = b"Chrome".to_vec();
    let w = session.get_window_by_name(buf, &titles, &name, &mut ledger);
    assert_eq!(w, Some(Window { id: 10 }));
    assert!(ledger.is_balanced());
}

#[test]
fn get_window_by_name_absent_when_none_match() {
    let session = Session::new();
    let mut ledger = Ledger::new();
    let buf = PropBuffer::acquire(33, 32, words32(&[10, 20, 30]), &mut ledger);
    let titles = vec![
        Some(b"Chrome".to_vec()),
        Some(b"Files".to_vec()),
        Some(b"Chrome".to_vec()),
    ];
    let name = b"Emacs".to_vec();
    assert_eq!(session.get_window_by_name(buf, &titles, &name, &mut ledger), None);
    assert!(ledger.is_balanced());
}

#[test]
fn get_window_by_name_ignores_untitled_windows() {
    let session = Session::new();
    let mut ledger = Ledger::new();
    let buf = PropBuffer::acquire(33, 32, words32(&[10, 20]), &mut ledger);
    let titles = vec![None, Some(b"Files".to_vec())];
    let name = b"Files".to_vec();
    let w = session.get_window_by_name(buf, &titles, &name, &mut ledger);
    assert_eq!(w, Some(Window { id: 20 }));
}

#[test]
fn memo_cell_resolves_exactly_once() {
    let mut cell = MemoCell::new();
    assert!(!cell.is_resolved());
    assert_eq!(cell.resolution_count(), 0);
    assert_eq!(cell.get_or_resolve(7), 7);
    assert_eq!(cell.get_or_resolve(9), 7);
    assert_eq!(cell.get_or_resolve(11), 7);
    assert!(cell.is_resolved());
    assert_eq!(cell.resolution_count(), 1);
}

#[test]
fn session_fields_memoize_independently() {
    let mut session = Session::new();
    assert_eq!(session.root(100).id, 100);
    assert_eq!(session.root(200).id, 100);
    assert_eq!(session.client_list(42), 42);
    assert_eq!(session.client_list(43), 42);
    assert_eq!(session.active_list(55), 55);
    assert_eq!(session.active_list(56), 55);
    assert_eq!(session.root_window.resolution_count(), 1);
    assert_eq!(session.client_list_atom.resolution_count(), 1);
    assert_eq!(session.active_window_atom.resolution_count(), 1);
}

#[test]
fn active_window_takes_first_identifier() {
    let session = Session::new();
    let mut ledger = Ledger::new();
    let buf = PropBuffer::acquire(33, 32, words32(&[77, 88]), &mut ledger);
    let w = session.active_window(buf, &mut ledger).unwrap();
    assert_eq!(w, Window { id: 77 });
    assert!(ledger.is_balanced());
}

#[test]
fn active_window_empty_property_not_supported() {
    let session = Session::new();
    let mut ledger = Ledger::new();
    let buf = PropBuffer::acquire(33, 32, Vec::new(), &mut ledger);
    assert_eq!(session.active_window(buf, &mut ledger).unwrap_err(), NotSupported);
    assert!(ledger.is_balanced());
}

#[test]
fn active_window_wrong_type_not_supported() {
    let session = Session::new();
    let mut ledger = Ledger::new();
    let buf = PropBuffer::acquire(6, 32, words32(&[77]), &mut ledger);
    assert_eq!(session.active_window(buf, &mut ledger).unwrap_err(), NotSupported);
    assert!(ledger.is_balanced());
}

#[test]
fn get_title_wraps_bytes() {
    let w = Window { id: 1 };
    let title = w.get_title(Some(b"hello".to_vec())).unwrap();
    assert_eq!(title.as_bytes(), &b"hello".to_vec());
}

#[test]
fn get_title_null_buffer_is_null_error() {
    let w = Window { id: 1 };
    assert_eq!(w.get_title(None).unwrap_err(), Null);
}

#[test]
fn match_title_compares_bytes_and_treats_no_title_as_non_match() {
    let w = Window { id: 1 };
    let name = b"Chrome".to_vec();
    assert!(w.match_title(&Some(b"Chrome".to_vec()), &name));
    assert!(!w.match_title(&Some(b"Chromium".to_vec()), &name));
    assert!(!w.match_title(&None, &name));
}

#[test]
fn capture_of_zero_sized_window_has_no_pixels() {
    let img = XImg::from_bgra(0, 5, &Vec::new()).unwrap();
    assert_eq!(img.width(), 0);
    assert_eq!(img.height(), 5);
    assert_eq!(img.rows().iter().map(|r| r.len()).sum::<usize>(), 0);
    let img = XImg::from_bgra(7, 0, &Vec::new()).unwrap();
    assert_eq!(img.rows().len(), 0);
}

#[test]
fn capture_with_mismatched_byte_count_fails() {
    assert!(XImg::from_bgra(2, 1, &vec![1, 2, 3]).is_none());
}

#[test]
fn capture_reads_pixels_rows_first() {
    // Two pixels: (b,g,r) = (1,2,3) and (4,5,6); the fourth byte is padding.
    let data = vec![1, 2, 3, 9, 4, 5, 6, 9];
    let img = XImg::from_bgra(2, 1, &data).unwrap();
    let rows = img.rows();
    assert_eq!(rows.len(), 1);
    assert_eq!(rows[0].len(), 2);
    assert_eq!(rows[0][0], XColor { b: 1, g: 2, r: 3 });
    assert_eq!(rows[0][1], XColor { b: 4, g: 5, r: 6 });
}

#[test]
fn grayscale_approx_is_channel_mean() {
    assert_eq!(XColor::new(30, 60, 90).grayscale_approx(), 60);
    assert_eq!(XColor::new(0, 0, 255).grayscale_approx(), 85);
    assert_eq!(XColor::new(0, 0, 0).grayscale_approx(), 0);
}

#[test]
fn grayscale_matches_luminance_coefficients() {
    assert_eq!(XColor::new(255, 255, 255).grayscale(), 255);
    assert_eq!(XColor::new(0, 0, 0).grayscale(), 0);
    // Pure red: (19595 * 255 + 32768) >> 16.
    assert_eq!(XColor::new(0, 0, 255).grayscale(), 76);
    // Pure green: (38470 * 255 + 32768) >> 16.
    assert_eq!(XColor::new(0, 255, 0).grayscale(), 150);
    // Pure blue: (7471 * 255 + 32768) >> 16.
    assert_eq!(XColor::new(255, 0, 0).grayscale(), 29);
}

#[test]
fn key_and_button_masks_and_codes() {
    assert_eq!(KeyType::Press.mask(), 1);
    assert_eq!(KeyType::Release.mask(), 2);
    assert_eq!(KeyType::Press.code(), 2);
    assert_eq!(KeyType::Release.code(), 3);
    assert_eq!(ButtonType::Press.mask(), 4);
    assert_eq!(ButtonType::Release.mask(), 8);
    assert_eq!(ButtonType::Press.code(), 4);
    assert_eq!(ButtonType::Release.code(), 5);
}

#[test]
fn key_event_fields() {
    let w = Window { id: 123 };
    let ev = w.key_event(KeyType::Press, 38, 5, 99);
    assert_eq!(ev.event_code, 2);
    assert_eq!(ev.mask, 1);
    assert_eq!(ev.serial, 0);
    assert_eq!(ev.send_event, 1);
    assert_eq!(ev.window, 123);
    assert_eq!(ev.root, 99);
    assert_eq!(ev.subwindow, 0);
    assert_eq!(ev.time, 0);
    assert_eq!((ev.x, ev.y, ev.x_root, ev.y_root), (1, 1, 1, 1));
    assert_eq!(ev.state, 5);
    assert_eq!(ev.keycode, 38);
    assert_eq!(ev.same_screen, 1);
}

#[test]
fn button_event_adjusts_coordinates_by_window_offset() {
    let w = Window { id: 123 };
    let mut attr = WindowAttributes::new();
    attr.x = 10;
    attr.y = 20;
    let ev = w.button_event(ButtonType::Release, 3, 1, 2, &attr, 0, 99);
    assert_eq!(ev.event_code, 5);
    assert_eq!(ev.mask, 8);
    assert_eq!((ev.x, ev.y), (11, 22));
    assert_eq!((ev.x_root, ev.y_root), (11, 22));
    assert_eq!(ev.button, 3);
    assert_eq!(ev.window, 123);
}

#[test]
fn window_attributes_start_zeroed() {
    let attr = WindowAttributes::new();
    assert_eq!(attr.x, 0);
    assert_eq!(attr.y, 0);
    assert_eq!(attr.width, 0);
    assert_eq!(attr.height, 0);
    assert_eq!(attr.depth, 0);
    assert_eq!(attr.map_state, 0);
}
