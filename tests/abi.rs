use ghost_cli::abi::{
    collect_structs, process_events, render_event, resolve_type, Event, EventParam, InternalType,
    SolEvent, SolEventParam, SolField, SolStruct,
};

fn s(x: &str) -> String {
    x.to_string()
}

fn param(name: &str, ty: &str, indexed: bool) -> EventParam {
    EventParam { name: s(name), ty: s(ty), indexed, internal_type: None, components: vec![] }
}

fn struct_param(name: &str, struct_name: &str, components: Vec<EventParam>) -> EventParam {
    EventParam {
        name: s(name),
        ty: s("tuple"),
        indexed: false,
        internal_type: Some(InternalType::Struct { contract: None, ty: s(struct_name) }),
        components,
    }
}

fn point_components() -> Vec<EventParam> {
    vec![param("x", "int256", false), param("y", "int256", false)]
}

#[test]
fn resolve_without_annotation_keeps_canonical_type() {
    assert_eq!(resolve_type("uint256", &None), "uint256");
}

#[test]
fn resolve_address_payable() {
    assert_eq!(resolve_type("address", &Some(InternalType::AddressPayable)), "address payable");
}

#[test]
fn resolve_contract() {
    let it = Some(InternalType::Contract(s("IERC20")));
    assert_eq!(resolve_type("address", &it), "IERC20");
}

#[test]
fn resolve_qualified_enum_struct_other() {
    let e = Some(InternalType::Enum { contract: Some(s("Pool")), ty: s("State") });
    assert_eq!(resolve_type("uint8", &e), "Pool.State");
    let st = Some(InternalType::Struct { contract: Some(s("Pool")), ty: s("Point") });
    assert_eq!(resolve_type("tuple", &st), "Pool.Point");
    let o = Some(InternalType::Other { contract: Some(s("Lib")), ty: s("Fixed") });
    assert_eq!(resolve_type("uint256", &o), "Lib.Fixed");
}

#[test]
fn resolve_unqualified_enum_struct_other() {
    let e = Some(InternalType::Enum { contract: None, ty: s("State") });
    assert_eq!(resolve_type("uint8", &e), "State");
    let st = Some(InternalType::Struct { contract: None, ty: s("Point") });
    assert_eq!(resolve_type("tuple", &st), "Point");
    let o = Some(InternalType::Other { contract: None, ty: s("Fixed") });
    assert_eq!(resolve_type("uint256", &o), "Fixed");
}

#[test]
fn transfer_event_keeps_order_and_indexed_flags() {
    let ev = Event {
        name: s("Transfer"),
        inputs: vec![
            param("from", "address", true),
            param("to", "address", false),
            param("amount", "uint256", false),
        ],
    };
    let rendered = render_event(&ev);
    assert_eq!(rendered.to_string(), "event Transfer(address indexed from, address to, uint256 amount);");
}

#[test]
fn point_struct_renders_exactly() {
    let st = SolStruct {
        name: s("Point"),
        fields: vec![
            SolField { name: s("x"), ty: s("int256") },
            SolField { name: s("y"), ty: s("int256") },
        ],
    };
    assert_eq!(st.to_string(), "struct Point {\n    int256 x;\n    int256 y;\n}");
}

#[test]
fn empty_struct_and_event_render() {
    let st = SolStruct { name: s("Empty"), fields: vec![] };
    assert_eq!(st.to_string(), "struct Empty {\n}");
    let ev = SolEvent { name: s("Ping"), params: vec![] };
    assert_eq!(ev.to_string(), "event Ping();");
}

#[test]
fn single_indexed_param_renders() {
    let ev = SolEvent {
        name: s("Paused"),
        params: vec![SolEventParam { name: s("by"), ty: s("address"), indexed: true }],
    };
    assert_eq!(ev.to_string(), "event Paused(address indexed by);");
}

#[test]
fn same_struct_in_two_events_is_collected_once() {
    let events = vec![
        Event { name: s("A"), inputs: vec![struct_param("p", "Point", point_components())] },
        Event { name: s("B"), inputs: vec![struct_param("q", "Point", point_components())] },
    ];
    let (structs, evs) = process_events(&events);
    assert_eq!(structs.len(), 1);
    assert_eq!(structs[0].name, "Point");
    assert_eq!(structs[0].to_string(), "struct Point {\n    int256 x;\n    int256 y;\n}");
    assert_eq!(evs[0].to_string(), "event A(Point p);");
    assert_eq!(evs[1].to_string(), "event B(Point q);");
}

#[test]
fn first_struct_definition_wins() {
    let other = vec![param("z", "uint8", false)];
    let events = vec![
        Event { name: s("A"), inputs: vec![struct_param("p", "Point", point_components())] },
        Event { name: s("B"), inputs: vec![struct_param("q", "Point", other)] },
    ];
    let (structs, _) = process_events(&events);
    assert_eq!(structs.len(), 1);
    assert_eq!(structs[0].fields.len(), 2);
    assert_eq!(structs[0].fields[0].name, "x");
    assert_eq!(structs[0].fields[1].ty, "int256");
}

#[test]
fn unannotated_tuple_passes_through() {
    let mut tuple = param("data", "tuple", false);
    tuple.components = point_components();
    let ev = Event { name: s("Raw"), inputs: vec![tuple] };
    let (structs, evs) = process_events(&vec![ev]);
    assert!(structs.is_empty());
    assert_eq!(evs[0].params[0].ty, "tuple");
    assert_eq!(evs[0].to_string(), "event Raw(tuple data);");
}

#[test]
fn non_tuple_types_are_not_resolved() {
    let mut p = param("who", "address", false);
    p.internal_type = Some(InternalType::Contract(s("IERC20")));
    let mut arr = param("points", "tuple[]", false);
    arr.internal_type = Some(InternalType::Struct { contract: None, ty: s("Point[]") });
    arr.components = point_components();
    let ev = Event { name: s("E"), inputs: vec![p, arr] };
    let (structs, evs) = process_events(&vec![ev]);
    assert!(structs.is_empty());
    assert_eq!(evs[0].to_string(), "event E(address who, tuple[] points);");
}

#[test]
fn batch_dedups_across_events_and_keeps_event_order() {
    let line = vec![param("a", "uint256", false)];
    let events = vec![
        Event { name: s("First"), inputs: vec![struct_param("p", "Point", point_components())] },
        Event { name: s("Second"), inputs: vec![struct_param("l", "Line", line)] },
        Event { name: s("Third"), inputs: vec![struct_param("p", "Point", point_components())] },
    ];
    let (structs, evs) = process_events(&events);
    let names: Vec<&str> = structs.iter().map(|st| st.name.as_str()).collect();
    assert_eq!(names, vec!["Point", "Line"]);
    let ev_names: Vec<&str> = evs.iter().map(|e| e.name.as_str()).collect();
    assert_eq!(ev_names, vec!["First", "Second", "Third"]);
}

#[test]
fn struct_fields_resolve_component_annotations() {
    let mut owner = param("owner", "address", false);
    owner.internal_type = Some(InternalType::AddressPayable);
    let mut kind = param("kind", "uint8", false);
    kind.internal_type = Some(InternalType::Enum { contract: Some(s("Vault")), ty: s("Kind") });
    let mut structs: Vec<SolStruct> = Vec::new();
    collect_structs(&vec![struct_param("info", "Info", vec![owner, kind])], &mut structs);
    assert_eq!(
        structs[0].to_string(),
        "struct Info {\n    address payable owner;\n    Vault.Kind kind;\n}"
    );
}

#[test]
fn collect_skips_names_already_present() {
    let mut structs = vec![SolStruct { name: s("Point"), fields: vec![] }];
    collect_structs(&vec![struct_param("p", "Point", point_components())], &mut structs);
    assert_eq!(structs.len(), 1);
    assert!(structs[0].fields.is_empty());
}

#[test]
fn empty_batch_gives_nothing() {
    let (structs, evs) = process_events(&vec![]);
    assert!(structs.is_empty());
    assert!(evs.is_empty());
}
