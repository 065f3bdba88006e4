use exclude_from_capture::capture::WDA_EXCLUDEFROMCAPTURE;
use exclude_from_capture::capture::is_window_hidden_from_capture;
use exclude_from_capture::params::InjectionParameters;
use exclude_from_capture::params::RECORD_SIZE;

#[test]
fn record_layout_is_handle_then_affinity_then_padding() {
    let p = InjectionParameters {
        target_window: 0x1122_3344_5566_7788,
        desired_affinity: 0x11,
    };
    let bytes = p.encode();
    assert_eq!(bytes.len(), RECORD_SIZE);
    assert_eq!(
        bytes,
        vec![
            0x88, 0x77, 0x66, 0x55, 0x44, 0x33, 0x22, 0x11, // handle, little-endian
            0x11, 0x00, 0x00, 0x00, // affinity, little-endian
            0x00, 0x00, 0x00, 0x00, // alignment padding
        ]
    );
}

#[test]
fn encode_then_decode_gives_the_record_back() {
    let p = InjectionParameters {
        target_window: 0xFEDC_BA98_7654_3210,
        desired_affinity: 0xDEAD_BEEF,
    };
    assert_eq!(InjectionParameters::decode(&p.encode()), Some(p));
}

#[test]
fn decode_rejects_a_record_of_the_wrong_size() {
    assert_eq!(InjectionParameters::decode(&vec![0u8; 12]), None);
    assert_eq!(InjectionParameters::decode(&vec![0u8; 17]), None);
    assert_eq!(InjectionParameters::decode(&Vec::new()), None);
}

#[test]
fn hide_request_carries_the_exclusion_affinity() {
    let p = InjectionParameters::exclude_from_capture(0x0001_0000_0000_ABCD);
    assert_eq!(p.target_window, 0x0001_0000_0000_ABCD);
    assert_eq!(p.desired_affinity, WDA_EXCLUDEFROMCAPTURE);
    assert_eq!(p.desired_affinity, 0x11);
}

#[test]
fn verifier_reads_the_affinity_flag_conservatively() {
    assert!(is_window_hidden_from_capture(Some(WDA_EXCLUDEFROMCAPTURE)));
    assert!(!is_window_hidden_from_capture(Some(0)));
    assert!(!is_window_hidden_from_capture(Some(1)));
    // A failed query never counts as excluded.
    assert!(!is_window_hidden_from_capture(None));
}
