use vmm::ipv4::{Ipv4Address, Ipv4Cidr};
use vmm::text::{decimal_string, hex_byte_string, hex_string, join, spaces};
use vmm::text_table::TextTable;

#[test]
fn decimal_of_numbers() {
    assert_eq!(decimal_string(0), "0");
    assert_eq!(decimal_string(7), "7");
    assert_eq!(decimal_string(10), "10");
    assert_eq!(decimal_string(2147483648), "2147483648");
    assert_eq!(decimal_string(u64::MAX), "18446744073709551615");
}

#[test]
fn hex_of_bytes() {
    assert_eq!(hex_byte_string(0), "00");
    assert_eq!(hex_byte_string(0x0f), "0f");
    assert_eq!(hex_byte_string(0xa5), "a5");
    assert_eq!(hex_string(&[0xde, 0xad, 0xbe, 0xef]), "deadbeef");
    assert_eq!(hex_string(&[]), "");
}

#[test]
fn spaces_and_join() {
    assert_eq!(spaces(0), "");
    assert_eq!(spaces(3), "   ");
    assert_eq!(join(&vec![], ","), "");
    assert_eq!(join(&vec!["a".to_string()], ","), "a");
    assert_eq!(join(&vec!["a".to_string(), "b".to_string(), "c".to_string()], ","), "a,b,c");
}

#[test]
fn ipv4_text() {
    assert_eq!(Ipv4Address::new(10, 0, 0, 1).to_string(), "10.0.0.1");
    assert_eq!(Ipv4Address::new(255, 255, 255, 255).to_string(), "255.255.255.255");
    let net = Ipv4Cidr::new(Ipv4Address::new(10, 0, 0, 1), 24).unwrap();
    assert_eq!(net.to_string(), "10.0.0.1/24");
    assert_eq!(net.prefix_len(), 24);
    assert_eq!(net.addr(), Ipv4Address::new(10, 0, 0, 1));
    assert!(Ipv4Cidr::new(Ipv4Address::new(10, 0, 0, 1), 32).is_ok());
    assert!(Ipv4Cidr::new(Ipv4Address::new(10, 0, 0, 1), 33).is_err());
}

#[test]
fn table_with_default_gap() {
    let mut table = TextTable::build().add_column("Id").add_column("Name").done();
    table.push("1".to_string());
    table.push("alpha".to_string());
    table.push("22".to_string());
    table.push("b".to_string());
    assert_eq!(table.render(), "ID   NAME \n1    alpha\n22   b    \n");
}

#[test]
fn table_with_gap_and_wide_title() {
    let mut table = TextTable::build().set_gap(1).add_column("Memory").add_column("x").done();
    table.push("2G".to_string());
    table.push("y".to_string());
    assert_eq!(table.column_count(), 2);
    assert_eq!(table.render(), "MEMORY X\n2G     y\n");
}

#[test]
fn table_without_rows_or_columns() {
    assert_eq!(TextTable::build().done().render(), "");
    assert_eq!(TextTable::build().add_column("only").done().render(), "ONLY\n");
}

#[test]
fn table_with_an_unfinished_row() {
    let mut table = TextTable::build().add_column("a").add_column("b").done();
    table.push("x".to_string());
    assert_eq!(table.render(), "A   B\nx   ");
}
