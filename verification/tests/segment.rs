use dotnet_module::segment::{Module, Segment};

#[test]
fn a_new_module_has_no_segment_and_no_style() {
    let module = Module::new("dotnet");
    assert_eq!(module.name, "dotnet");
    assert_eq!(module.style, ansi_term::Style::default());
    assert!(module.segments.is_empty());
}

#[test]
fn segments_are_kept_in_the_order_they_were_added() {
    let mut module = Module::new("m");
    module.new_segment("symbol", "* ");
    module.new_segment("version", "v1");
    module.new_segment("symbol", "again");
    assert_eq!(
        module.segments,
        vec![
            Segment { name: "symbol".to_string(), value: "* ".to_string() },
            Segment { name: "version".to_string(), value: "v1".to_string() },
            Segment { name: "symbol".to_string(), value: "again".to_string() },
        ]
    );
    assert_eq!(module.name, "m");
    assert_eq!(module.style, ansi_term::Style::default());
}

#[test]
fn set_style_changes_the_style_only() {
    let mut module = Module::new("m");
    module.new_segment("a", "b");
    let style = ansi_term::Colour::Red.underline();
    module.set_style(style);
    assert_eq!(module.style, style);
    assert_eq!(module.name, "m");
    assert_eq!(module.segments, vec![Segment { name: "a".to_string(), value: "b".to_string() }]);
}
