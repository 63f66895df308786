use wezterm_gpui::domains::{offered_domain_names, DomainInfo};

fn dom(name: &str, spawnable: bool, attached: bool) -> DomainInfo {
    DomainInfo { name: name.to_string(), spawnable, attached }
}

#[test]
fn offered_domains_are_filtered_and_sorted() {
    let domains = vec![
        dom("local", true, true),
        dom("WSL:Ubuntu", true, true),
        dom("SSH:box", true, true),
        dom("", true, true),
        dom("unix", false, true),
        dom("TLS:far", true, false),
        dom("SSH:alpha", true, true),
    ];
    assert_eq!(offered_domain_names(&domains), vec!["SSH:alpha", "SSH:box", "WSL:Ubuntu"]);
    assert!(offered_domain_names(&Vec::new()).is_empty());
}

#[test]
fn name_order_matches_str_order() {
    let names = ["b", "a", "ab", "é", "z", "Z", "aa"];
    let domains: Vec<DomainInfo> = names.iter().map(|n| dom(n, true, true)).collect();
    let mut want: Vec<String> = names.iter().map(|s| s.to_string()).collect();
    want.sort();
    assert_eq!(offered_domain_names(&domains), want);
}
