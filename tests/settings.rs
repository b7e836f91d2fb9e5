use kai_rs::api::v1::{Decimal, GenerationSettings, WireField, WireValue};

fn find<'a>(fields: &'a [WireField], key: &str) -> Option<&'a WireValue> {
    fields.iter().find(|f| f.key == key).map(|f| &f.value)
}

fn dec(mantissa: i64, scale: u32) -> Decimal {
    Decimal { mantissa, scale }
}

#[test]
fn default_literal_values() {
    let s = GenerationSettings::default();
    assert_eq!(s.max_context_length, 1024);
    assert_eq!(s.max_length, 80);
    assert_eq!(s.n, 1);
    assert_eq!(s.temperature, Some(dec(5, 1)));
    assert_eq!(s.top_p, Some(dec(9, 1)));
    assert_eq!(s.rep_pen, Some(dec(11, 1)));
    assert_eq!(s.sampler_order, Some(vec![6, 0, 1, 2, 3, 4, 5]));
    assert_eq!(s.soft_prompt, Some(String::new()));
    assert_eq!(s.rep_pen_range, Some(1024));
    assert_eq!(s.disable_input_formatting, Some(true));
    assert!(s.use_userscripts);
}

#[test]
fn to_wire_injects_prompt() {
    let s = GenerationSettings::default();
    let w = s.to_wire("test");
    assert_eq!(find(&w, "prompt"), Some(&WireValue::Text("test".to_string())));
    assert_eq!(find(&w, "max_context_length"), Some(&WireValue::Int(1024)));
    assert_eq!(find(&w, "max_length"), Some(&WireValue::Int(80)));
    assert_eq!(find(&w, "n"), Some(&WireValue::Int(1)));
    assert_eq!(find(&w, "temperature"), Some(&WireValue::Decimal(dec(5, 1))));
    assert_eq!(find(&w, "top_p"), Some(&WireValue::Decimal(dec(9, 1))));
    assert_eq!(find(&w, "rep_pen"), Some(&WireValue::Decimal(dec(11, 1))));
    assert_eq!(
        find(&w, "sampler_order"),
        Some(&WireValue::IntList(vec![6, 0, 1, 2, 3, 4, 5]))
    );
    assert_eq!(w.len(), 30);
}

#[test]
fn to_wire_uses_short_names() {
    let w = GenerationSettings::default().to_wire("p");
    assert_eq!(find(&w, "frmtadsnsp"), Some(&WireValue::Bool(false)));
    assert_eq!(find(&w, "frmtrmblln"), Some(&WireValue::Bool(false)));
    assert_eq!(find(&w, "frmtrmspch"), Some(&WireValue::Bool(false)));
    assert_eq!(find(&w, "frmttriminc"), Some(&WireValue::Bool(false)));
    assert_eq!(find(&w, "singleline"), Some(&WireValue::Bool(false)));
    assert_eq!(find(&w, "add_leading_space"), None);
    assert_eq!(find(&w, "single_line"), None);
}

#[test]
fn to_wire_omits_absent_fields() {
    let mut s = GenerationSettings::default();
    s.temperature = None;
    s.soft_prompt = None;
    s.sampler_order = None;
    s.top_k = Some(40);
    let w = s.to_wire("hello");
    assert_eq!(find(&w, "temperature"), None);
    assert_eq!(find(&w, "soft_prompt"), None);
    assert_eq!(find(&w, "sampler_order"), None);
    assert_eq!(find(&w, "top_k"), Some(&WireValue::Int(40)));
    assert_eq!(w.len(), 27);
    assert_eq!(w.last().unwrap().key, "prompt");
}
