use webhook_gateway::events::github::get_work_product;

#[test]
fn extract_us() {
    assert_eq!(
        get_work_product("DE123455; hihkdfd"),
        Some("DE123455".to_string())
    );
    assert_eq!(
        get_work_product("DE123455: hihkdfd"),
        Some("DE123455".to_string())
    );
    assert_eq!(
        get_work_product("de123455: hihkdfd"),
        Some("DE123455".to_string())
    );
    assert_eq!(
        get_work_product("de123455: hihkdfd de1234556"),
        Some("DE123455".to_string())
    );
}

#[test]
fn work_product_lists_and_limits() {
    assert_eq!(get_work_product("fix US1234 , de5678 and more"), Some("US1234 , DE5678".to_string()));
    assert_eq!(get_work_product("US123456789"), Some("US12345678".to_string()));
    assert_eq!(get_work_product("US123 DE4567"), Some("DE4567".to_string()));
    assert_eq!(get_work_product("US1234,"), Some("US1234".to_string()));
    assert_eq!(get_work_product("no item here"), None);
    assert_eq!(get_work_product(""), None);
}

#[test]
fn work_product_ignores_ascii_case() {
    assert_eq!(get_work_product("us1234 , de5678 x"), Some("US1234 , DE5678".to_string()));
    assert_eq!(get_work_product("US1234 , DE5678 X"), get_work_product("us1234 , de5678 x"));
    assert_eq!(get_work_product("US123"), None);
}
