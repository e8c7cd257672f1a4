use meshh_tui::tui::time_display::{
    compact_iso_timestamp, compact_timestamp_at_offset, format_compact_fields,
    format_delivery_timestamp, format_delivery_timestamp_at,
};

#[test]
fn timestamp_formatting_converts_rfc3339_to_user_offset() {
    let timestamp = "2026-06-04T19:09:10Z";
    let tokyo = 9 * 3600;
    let new_york = -4 * 3600;

    assert_eq!(
        compact_timestamp_at_offset(timestamp, tokyo).as_deref(),
        Some("Jun 05 04:09")
    );
    assert_eq!(
        compact_timestamp_at_offset(timestamp, new_york).as_deref(),
        Some("Jun 04 15:09")
    );
}

#[test]
fn timestamp_formatting_falls_back_for_non_ascii_malformed_input() {
    let timestamp = "2026é6-04T19:09:00Z";

    assert_eq!(format_delivery_timestamp(Some(timestamp)), timestamp);
}

#[test]
fn missing_timestamps_show_a_dash() {
    assert_eq!(format_delivery_timestamp(None), "-");
    assert_eq!(format_delivery_timestamp_at(None, 0), "-");
}

#[test]
fn iso_like_timestamps_without_offset_are_compacted() {
    assert_eq!(
        compact_iso_timestamp("2026-01-31 07:05:00").as_deref(),
        Some("Jan 31 07:05")
    );
    assert_eq!(
        compact_iso_timestamp("2026-12-01T23:59").as_deref(),
        Some("Dec 01 23:59")
    );
    assert_eq!(
        format_delivery_timestamp_at(Some("2026-12-01T23:59"), 3600),
        "Dec 01 23:59"
    );
    assert_eq!(compact_iso_timestamp("2026-13-01T23:59"), None);
    assert_eq!(compact_iso_timestamp("2026-12-01T2359"), None);
    assert_eq!(compact_iso_timestamp("2026-12-01"), None);
    assert_eq!(compact_iso_timestamp("26-12-01T23:59"), None);
    assert_eq!(format_delivery_timestamp_at(Some("yesterday"), 0), "yesterday");
}

#[test]
fn compact_fields_are_zero_padded() {
    assert_eq!(format_compact_fields(2, 3, 4, 5), "Feb 03 04:05");
    assert_eq!(format_compact_fields(11, 30, 23, 59), "Nov 30 23:59");
}

#[test]
fn offsets_cross_year_boundaries() {
    assert_eq!(
        compact_timestamp_at_offset("2025-12-31T23:30:00Z", 3600).as_deref(),
        Some("Jan 01 00:30")
    );
    assert_eq!(
        compact_timestamp_at_offset("2026-03-01T00:10:00+00:00", -1800).as_deref(),
        Some("Feb 28 23:40")
    );
}
