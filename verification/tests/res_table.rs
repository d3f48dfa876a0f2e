use duo_firmware::res_table::resource_table;

#[test]
fn firmware_resource_table_values() {
    let t = resource_table();
    assert_eq!(t.resource_table.ver, 1);
    assert_eq!(t.resource_table.num, 1);
    assert_eq!(t.resource_table.reserved, [0, 0]);
    assert_eq!(t.offset, [0x14]);
    assert_eq!(t.carve_out.type_, 0);
    let c = t.carve_out_data;
    assert_eq!(c.da, 0x8fe0_0000);
    assert_eq!(c.pa, 0x8fe0_0000);
    assert_eq!(c.len, 0x20_0000);
    assert_eq!(c.flags, 0);
    assert_eq!(c.reserved, 0);
    assert_eq!(&c.name[..4], b"text");
    assert!(c.name[4..].iter().all(|b| *b == 0));
}
