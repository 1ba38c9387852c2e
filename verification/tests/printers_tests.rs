use dazzle::printers::{parse_default_printer, parse_printer_line, parse_printer_list};

#[test]
fn a_listing_line_yields_its_printer_name() {
    assert_eq!(
        parse_printer_line("printer Zebra_ZD420 is idle.  enabled since Mon"),
        Some("Zebra_ZD420".to_string())
    );
    assert_eq!(parse_printer_line("printer Other disabled since Tue"), Some("Other".to_string()));
}

#[test]
fn lines_without_the_prefix_yield_nothing() {
    assert_eq!(parse_printer_line("no printers found"), None);
    assert_eq!(parse_printer_line(""), None);
    assert_eq!(parse_printer_line("printer"), None);
    assert_eq!(parse_printer_line("printer "), None);
    assert_eq!(parse_printer_line("printer    "), None);
}

#[test]
fn a_whole_listing_is_parsed_in_order_with_the_default_marked() {
    let out = "printer Zebra_ZD420 is idle.  enabled since Mon\n\
               some unrelated line\n\
               printer Other disabled since Tue\n";
    let printers = parse_printer_list(out, &Some("Zebra_ZD420".to_string()));
    assert_eq!(printers.len(), 2);
    assert_eq!(printers[0].name, "Zebra_ZD420");
    assert!(printers[0].is_default);
    assert_eq!(printers[1].name, "Other");
    assert!(!printers[1].is_default);
}

#[test]
fn without_a_default_no_entry_is_marked() {
    let out = "printer A is idle.\nprinter B is idle.\n";
    let printers = parse_printer_list(out, &None);
    assert_eq!(printers.len(), 2);
    assert!(printers.iter().all(|p| !p.is_default));
}

#[test]
fn empty_output_yields_no_printers() {
    assert_eq!(parse_printer_list("", &None).len(), 0);
}

#[test]
fn the_default_destination_line_is_parsed_and_trimmed() {
    assert_eq!(
        parse_default_printer("system default destination: Zebra_ZD420\n"),
        Some("Zebra_ZD420".to_string())
    );
    assert_eq!(parse_default_printer("no system default destination\n"), None);
}

#[test]
fn only_the_second_piece_names_the_default() {
    assert_eq!(parse_default_printer("a: b: c"), Some("b".to_string()));
}

#[test]
fn names_end_at_any_unicode_whitespace() {
    assert_eq!(
        parse_printer_line("printer Zebra\u{00A0}accepting requests"),
        Some("Zebra".to_string())
    );
    assert_eq!(
        parse_default_printer("system default destination: Zebra\u{2003}\n"),
        Some("Zebra".to_string())
    );
}
