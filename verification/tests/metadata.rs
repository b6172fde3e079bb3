use ink_abi::compact::CompactContractSpec;
use ink_abi::registry::{Registry, TypeDescriptor};
use ink_abi::selector::serialize_selector;
use ink_abi::specs::{
    ConstructorSpec, ContractSpec, EventParamSpec, EventSpec, MessageParamSpec, MessageSpec,
    ReturnTypeSpec, SpecError, TypeSpec,
};

fn bool_descriptor() -> TypeDescriptor {
    TypeDescriptor { segments: vec!["bool".to_string()], params: Vec::new() }
}

fn u128_descriptor() -> TypeDescriptor {
    TypeDescriptor { segments: vec!["u128".to_string()], params: Vec::new() }
}

fn flipper() -> ContractSpec {
    let constructor = ConstructorSpec::new("new".to_string())
        .selector([0, 0, 0, 1])
        .args(vec![MessageParamSpec::new("init_value".to_string())
            .of_type(TypeSpec::new(bool_descriptor()))
            .done()])
        .done()
        .unwrap();
    let flip = MessageSpec::new("flip".to_string())
        .selector([0, 0, 0, 2])
        .mutates(true)
        .return_type(ReturnTypeSpec::new(None))
        .done()
        .unwrap();
    let get = MessageSpec::new("get".to_string())
        .selector([0, 0, 0, 3])
        .mutates(false)
        .return_type(ReturnTypeSpec::new(Some(TypeSpec::new(bool_descriptor()))))
        .done()
        .unwrap();
    ContractSpec::new("Flipper".to_string())
        .constructors(vec![constructor])
        .messages(vec![flip, get])
        .done()
        .unwrap()
}

#[test]
fn construct_selector_must_serialize_to_hex() {
    // given
    let name = "foo";
    let cs: ConstructorSpec = ConstructorSpec {
        name: name.to_string(),
        selector: 123_456_789u32.to_be_bytes(),
        args: Vec::new(),
        docs: Vec::new(),
    };
    let mut registry = Registry::new();

    // when
    let compact = cs.into_compact(&mut registry);

    // then
    assert_eq!(compact.name, 1);
    assert!(compact.args.is_empty());
    assert!(compact.docs.is_empty());
    assert_eq!(
        serialize_selector(&compact.selector),
        r#"["0x07","0x5B","0xCD","0x15"]"#
    );
}

#[test]
fn selector_bytes_render_uppercase_padded() {
    let s = serialize_selector(&[0x07, 0x5B, 0xCD, 0x15]);
    assert_eq!(s, "[\"0x07\",\"0x5B\",\"0xCD\",\"0x15\"]");
    let z = serialize_selector(&[0, 0, 0, 1]);
    assert_eq!(z, "[\"0x00\",\"0x00\",\"0x00\",\"0x01\"]");
    let m = serialize_selector(&[0xFF, 0xA0, 0x0A, 0x99]);
    assert_eq!(m, "[\"0xFF\",\"0xA0\",\"0x0A\",\"0x99\"]");
}

#[test]
fn register_string_is_idempotent_and_first_seen_ordered() {
    let mut registry = Registry::new();
    let i1 = registry.register_string("alpha".to_string());
    let i2 = registry.register_string("beta".to_string());
    let i3 = registry.register_string("alpha".to_string());
    let i4 = registry.register_string("beta".to_string());
    let i5 = registry.register_string("gamma".to_string());
    assert_eq!(i1, 1);
    assert_eq!(i2, 2);
    assert_eq!(i3, 1);
    assert_eq!(i4, 2);
    assert_eq!(i5, 3);
    assert_eq!(
        registry.strings,
        vec!["alpha".to_string(), "beta".to_string(), "gamma".to_string()]
    );
}

#[test]
fn register_type_dedups_on_structure() {
    let mut registry = Registry::new();
    let i1 = registry.register_type(&bool_descriptor());
    let i2 = registry.register_type(&u128_descriptor());
    let i3 = registry.register_type(&bool_descriptor());
    assert_eq!(i1, 1);
    assert_eq!(i2, 2);
    assert_eq!(i3, 1);
    assert_eq!(registry.types.len(), 2);
}

#[test]
fn register_type_registers_nested_parameters() {
    let list_of_u128 = TypeDescriptor {
        segments: vec!["Vec".to_string()],
        params: vec![u128_descriptor()],
    };
    let mut registry = Registry::new();
    let idx = registry.register_type(&list_of_u128);
    // The container is registered first, then its parameter.
    assert_eq!(idx, 1);
    assert_eq!(registry.types.len(), 2);
    assert_eq!(registry.types[0].segments, vec!["Vec".to_string()]);
    assert_eq!(registry.types[1].segments, vec!["u128".to_string()]);
    // Registering the parameter on its own finds the existing entry.
    let pidx = registry.register_type(&u128_descriptor());
    assert_eq!(pidx, 2);
    assert_eq!(registry.types.len(), 2);
}

#[test]
fn compaction_is_deterministic() {
    let mut r1 = Registry::new();
    let c1: CompactContractSpec = flipper().into_compact(&mut r1);
    let mut r2 = Registry::new();
    let c2: CompactContractSpec = flipper().into_compact(&mut r2);
    assert_eq!(c1, c2);
    assert_eq!(r1.strings, r2.strings);
    assert_eq!(r1.types.len(), r2.types.len());
}

#[test]
fn shared_param_name_is_stored_once() {
    let value_param = |ty: TypeDescriptor| {
        MessageParamSpec::new("value".to_string())
            .of_type(TypeSpec::new(ty))
            .done()
    };
    let message = |name: &str, sel: u8, ty: TypeDescriptor| {
        MessageSpec::new(name.to_string())
            .selector([0, 0, 0, sel])
            .mutates(false)
            .args(vec![value_param(ty)])
            .return_type(ReturnTypeSpec::new(None))
            .done()
            .unwrap()
    };
    let constructor = ConstructorSpec::new("new".to_string())
        .selector([0, 0, 0, 0])
        .done()
        .unwrap();
    let contract = ContractSpec::new("Holder".to_string())
        .constructors(vec![constructor])
        .messages(vec![
            message("a", 1, bool_descriptor()),
            message("b", 2, bool_descriptor()),
            message("c", 3, bool_descriptor()),
        ])
        .done()
        .unwrap();
    let mut registry = Registry::new();
    let compact = contract.into_compact(&mut registry);
    let occurrences = registry.strings.iter().filter(|s| s.as_str() == "value").count();
    assert_eq!(occurrences, 1);
    let idx = compact.messages[0].args[0].name;
    assert_eq!(registry.strings[idx - 1], "value");
    assert_eq!(compact.messages[1].args[0].name, idx);
    assert_eq!(compact.messages[2].args[0].name, idx);
}

#[test]
fn message_done_without_selector_fails() {
    let r = MessageSpec::new("flip".to_string()).done();
    assert!(matches!(r, Err(SpecError::MissingSelector)));
}

#[test]
fn message_done_without_mutates_fails() {
    let r = MessageSpec::new("flip".to_string()).selector([0, 0, 0, 2]).done();
    assert!(matches!(r, Err(SpecError::MissingMutates)));
}

#[test]
fn message_done_without_return_type_fails() {
    let r = MessageSpec::new("flip".to_string())
        .selector([0, 0, 0, 2])
        .mutates(true)
        .done();
    assert!(matches!(r, Err(SpecError::MissingReturnType)));
}

#[test]
fn constructor_done_without_selector_fails() {
    let r = ConstructorSpec::new("new".to_string()).done();
    assert!(matches!(r, Err(SpecError::MissingSelector)));
}

#[test]
fn contract_done_with_empty_constructors_fails() {
    let flip = MessageSpec::new("flip".to_string())
        .selector([0, 0, 0, 2])
        .mutates(true)
        .return_type(ReturnTypeSpec::new(None))
        .done()
        .unwrap();
    let r = ContractSpec::new("Flipper".to_string())
        .constructors(Vec::new())
        .messages(vec![flip])
        .done();
    assert!(matches!(r, Err(SpecError::NoConstructors)));
}

#[test]
fn contract_done_with_empty_messages_fails() {
    let constructor = ConstructorSpec::new("new".to_string())
        .selector([0, 0, 0, 1])
        .done()
        .unwrap();
    let r = ContractSpec::new("Flipper".to_string())
        .constructors(vec![constructor])
        .done();
    assert!(matches!(r, Err(SpecError::NoMessages)));
}

#[test]
fn flipper_end_to_end() {
    let mut registry = Registry::new();
    let compact = flipper().into_compact(&mut registry);

    // String table: first-seen order in depth-first field order.
    assert_eq!(
        registry.strings,
        vec![
            "Flipper".to_string(),
            "new".to_string(),
            "init_value".to_string(),
            "flip".to_string(),
            "get".to_string(),
        ]
    );
    // Type table: one entry for `bool`.
    assert_eq!(registry.types.len(), 1);
    assert_eq!(registry.types[0].segments, vec!["bool".to_string()]);
    assert!(registry.types[0].params.is_empty());

    // Every reference resolves against the tables.
    assert_eq!(registry.strings[compact.name - 1], "Flipper");
    assert_eq!(registry.strings[compact.constructors[0].name - 1], "new");
    assert_eq!(
        registry.strings[compact.constructors[0].args[0].name - 1],
        "init_value"
    );
    assert_eq!(
        registry.types[compact.constructors[0].args[0].ty.ty - 1].segments,
        vec!["bool".to_string()]
    );
    assert_eq!(registry.strings[compact.messages[0].name - 1], "flip");
    assert_eq!(registry.strings[compact.messages[1].name - 1], "get");
    assert!(compact.messages[0].return_type.opt_type.is_none());
    let get_ret = compact.messages[1].return_type.opt_type.as_ref().unwrap();
    assert_eq!(registry.types[get_ret.ty - 1].segments, vec!["bool".to_string()]);
    assert_eq!(compact.messages[0].mutates, true);
    assert_eq!(compact.messages[1].mutates, false);
    assert_eq!(compact.constructors[0].selector, [0, 0, 0, 1]);
    assert_eq!(compact.messages[0].selector, [0, 0, 0, 2]);
    assert_eq!(compact.messages[1].selector, [0, 0, 0, 3]);
}

#[test]
fn aliases_share_one_type_entry() {
    // Two aliases over the same underlying type dedup on the type
    // identity; the alias names travel with the type specifications.
    let balance = TypeSpec::with_name_str(u128_descriptor(), "Balance").unwrap();
    let amount = TypeSpec::with_name_str(u128_descriptor(), "Amount").unwrap();
    let constructor = ConstructorSpec::new("new".to_string())
        .selector([0, 0, 0, 1])
        .done()
        .unwrap();
    let transfer = MessageSpec::new("transfer".to_string())
        .selector([0, 0, 0, 2])
        .mutates(true)
        .args(vec![
            MessageParamSpec::new("from_amount".to_string()).of_type(balance).done(),
            MessageParamSpec::new("to_amount".to_string()).of_type(amount).done(),
        ])
        .return_type(ReturnTypeSpec::new(None))
        .done()
        .unwrap();
    let contract = ContractSpec::new("Bank".to_string())
        .constructors(vec![constructor])
        .messages(vec![transfer])
        .done()
        .unwrap();
    let mut registry = Registry::new();
    let compact = contract.into_compact(&mut registry);
    // One shared type-table entry for u128.
    assert_eq!(registry.types.len(), 1);
    assert_eq!(registry.types[0].segments, vec!["u128".to_string()]);
    let a0 = &compact.messages[0].args[0];
    let a1 = &compact.messages[0].args[1];
    assert_eq!(a0.ty.ty, a1.ty.ty);
    // Each compact node keeps its own display-name indices.
    assert_eq!(a0.ty.display_name.len(), 1);
    assert_eq!(a1.ty.display_name.len(), 1);
    assert_eq!(registry.strings[a0.ty.display_name[0] - 1], "Balance");
    assert_eq!(registry.strings[a1.ty.display_name[0] - 1], "Amount");
    assert_ne!(a0.ty.display_name[0], a1.ty.display_name[0]);
}

#[test]
fn display_name_paths_are_validated() {
    let ok = TypeSpec::with_name_str(bool_descriptor(), "foo::bar::Baz").unwrap();
    assert_eq!(
        ok.display_name.segments,
        vec!["foo".to_string(), "bar".to_string(), "Baz".to_string()]
    );
    let single = TypeSpec::with_name_str(bool_descriptor(), "foo").unwrap();
    assert_eq!(single.display_name.segments, vec!["foo".to_string()]);

    let bad = TypeSpec::with_name_str(bool_descriptor(), "not-an-ident");
    assert!(matches!(bad, Err(SpecError::InvalidDisplayName)));
    let trailing = TypeSpec::with_name_str(bool_descriptor(), "foo::");
    assert!(matches!(trailing, Err(SpecError::InvalidDisplayName)));
    let empty = TypeSpec::with_name_str(bool_descriptor(), "");
    assert!(matches!(empty, Err(SpecError::InvalidDisplayName)));
    let digit_start = TypeSpec::with_name_segs(bool_descriptor(), vec!["9lives".to_string()]);
    assert!(matches!(digit_start, Err(SpecError::InvalidDisplayName)));
    let none = TypeSpec::with_name_segs(bool_descriptor(), Vec::new());
    assert!(matches!(none, Err(SpecError::InvalidDisplayName)));
}

#[test]
fn event_parameters_compact_in_order() {
    let event = EventSpec::new("Transferred".to_string())
        .args(vec![
            EventParamSpec::new("from_account".to_string())
                .of_type(TypeSpec::new(u128_descriptor()))
                .indexed(true)
                .docs(vec!["the sender".to_string()])
                .done(),
            EventParamSpec::new("amount".to_string())
                .of_type(TypeSpec::new(u128_descriptor()))
                .done(),
        ])
        .docs(vec!["money moved".to_string()])
        .done();
    let constructor = ConstructorSpec::new("new".to_string())
        .selector([0, 0, 0, 1])
        .done()
        .unwrap();
    let ping = MessageSpec::new("ping".to_string())
        .selector([0, 0, 0, 2])
        .mutates(false)
        .return_type(ReturnTypeSpec::new(None))
        .done()
        .unwrap();
    let contract = ContractSpec::new("Ledger".to_string())
        .constructors(vec![constructor])
        .messages(vec![ping])
        .events(vec![event])
        .docs(vec!["a ledger".to_string()])
        .done()
        .unwrap();
    let mut registry = Registry::new();
    let compact = contract.into_compact(&mut registry);

    assert_eq!(registry.strings[compact.events[0].name - 1], "Transferred");
    let p0 = &compact.events[0].args[0];
    let p1 = &compact.events[0].args[1];
    assert_eq!(registry.strings[p0.name - 1], "from_account");
    assert_eq!(registry.strings[p1.name - 1], "amount");
    assert!(p0.indexed);
    assert!(!p1.indexed);
    // Documentation passes through as literal strings, uninterned.
    assert_eq!(p0.docs, vec!["the sender".to_string()]);
    assert_eq!(compact.events[0].docs, vec!["money moved".to_string()]);
    assert_eq!(compact.docs, vec!["a ledger".to_string()]);
    assert!(!registry.strings.contains(&"a ledger".to_string()));
    assert!(!registry.strings.contains(&"the sender".to_string()));
}
