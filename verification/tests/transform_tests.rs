//! End-to-end tests of the transformation core on concrete constructs.

use entangle::dispatch::entangle;
use entangle::model::{
    DataType, Diagnostic, Field, HandlerImplBlock, ImplItem, InterfaceImplBlock, MethodBody,
    MethodItem, Param, PathSeg, Receiver, SourceConstruct, TargetType, TransformError, TypePath,
    Vis,
};
use entangle::naming::ImplBlockCounter;
use entangle::output::Emitted;

fn s(text: &str) -> String {
    text.to_string()
}

fn seg(ident: &str) -> PathSeg {
    PathSeg { ident: s(ident), args: Vec::new() }
}

fn seg_with_args(ident: &str, args: &[&str]) -> PathSeg {
    PathSeg { ident: s(ident), args: args.iter().map(|a| s(a)).collect() }
}

fn path(segs: Vec<PathSeg>) -> TypePath {
    TypePath { segs }
}

fn counter_data_type() -> DataType {
    DataType {
        attrs: Vec::new(),
        vis: Vis::Public,
        name: s("Counter"),
        generics: Vec::new(),
        fields: vec![Field { name: s("count"), vis: Vis::Inherited, ty: s("i64") }],
    }
}

fn increment_method() -> MethodItem {
    MethodItem {
        vis: Vis::Public,
        name: s("increment"),
        receiver: Receiver::Exclusive,
        params: vec![Param { name: s("by"), ty: s("i64") }],
        ret: None,
        body: MethodBody::Direct(s("self.count += by;")),
    }
}

fn counter_handler_block() -> HandlerImplBlock {
    HandlerImplBlock {
        generics: Vec::new(),
        self_ty: TargetType::Path(path(vec![seg("Counter")])),
        items: vec![ImplItem::Method(increment_method())],
    }
}

#[test]
fn scenario_counter_struct_splits() {
    let mut counter = ImplBlockCounter::new();
    let (result, diags) = entangle(SourceConstruct::Data(counter_data_type()), &mut counter);
    let out = match result.unwrap() {
        Emitted::Split(o) => o,
        other => panic!("expected a split, got {:?}", other),
    };

    // The handle: same name and scope, duplicable, one mailbox-address field.
    assert_eq!(out.handle.name, s("Counter"));
    assert_eq!(out.handle.vis, Vis::Public);
    assert!(out.handle.duplicable);
    assert_eq!(out.handle.addr_field.actor_mod, s("__CounterActor"));
    assert_eq!(out.handle.addr_field.actor_name, s("Counter"));
    assert!(out.handle.addr_field.generics.is_empty());

    // Exactly two accessors: owning extraction and borrowing reference.
    assert_eq!(out.into_accessor.name, s("into_address"));
    assert!(out.into_accessor.consumes);
    assert_eq!(out.into_accessor.addr.actor_mod, s("__CounterActor"));
    assert_eq!(out.borrow_accessor.name, s("address"));
    assert!(!out.borrow_accessor.consumes);
    assert_eq!(out.borrow_accessor.addr.actor_name, s("Counter"));

    // The actor namespace and the actor declaration inside it.
    assert_eq!(out.actor_mod, s("__CounterActor"));
    assert_eq!(out.actor_mod_vis, Vis::Public);
    assert_eq!(out.actor.name, s("Counter"));
    assert_eq!(out.actor.fields.len(), 1);
    assert_eq!(out.actor.fields[0].name, s("count"));
    assert_eq!(out.actor.fields[0].ty, s("i64"));
    // The private field scope is widened to the enclosing scope.
    assert_eq!(out.actor.fields[0].vis, Vis::Restricted(vec![s("super")]));

    // A private field widens silently; the counter does not move.
    assert!(diags.is_empty());
    assert_eq!(counter.next, 0);
}

#[test]
fn field_order_and_types_are_preserved() {
    let input = DataType {
        attrs: vec![s("#[derive(Debug)]")],
        vis: Vis::Public,
        name: s("Pair"),
        generics: vec![s("T")],
        fields: vec![
            Field { name: s("left"), vis: Vis::Public, ty: s("T") },
            Field { name: s("right"), vis: Vis::Inherited, ty: s("u32") },
            Field { name: s("tag"), vis: Vis::Restricted(vec![s("crate")]), ty: s("String") },
        ],
    };
    let mut counter = ImplBlockCounter::new();
    let (result, diags) = entangle(SourceConstruct::Data(input), &mut counter);
    let out = match result.unwrap() {
        Emitted::Split(o) => o,
        other => panic!("expected a split, got {:?}", other),
    };
    let names: Vec<String> = out.actor.fields.iter().map(|f| f.name.clone()).collect();
    let tys: Vec<String> = out.actor.fields.iter().map(|f| f.ty.clone()).collect();
    assert_eq!(names, vec![s("left"), s("right"), s("tag")]);
    assert_eq!(tys, vec![s("T"), s("u32"), s("String")]);
    // `pub` stays `pub`; everything else becomes `pub(super)`.
    assert_eq!(out.actor.fields[0].vis, Vis::Public);
    assert_eq!(out.actor.fields[1].vis, Vis::Restricted(vec![s("super")]));
    assert_eq!(out.actor.fields[2].vis, Vis::Restricted(vec![s("super")]));
    // The explicit `crate` restriction is the one scope that warns.
    assert_eq!(diags, vec![Diagnostic::UnsupportedVisibility(vec![s("crate")])]);
    // Attributes and generics carry over to the actor declaration.
    assert_eq!(out.actor.attrs, vec![s("#[derive(Debug)]")]);
    assert_eq!(out.actor.generics, vec![s("T")]);
    assert_eq!(out.handle.generics, vec![s("T")]);
    assert_eq!(out.handle.addr_field.generics, vec![s("T")]);
}

#[test]
fn scenario_counter_handler_block_mirrors() {
    let mut counter = ImplBlockCounter::new();
    let (result, diags) = entangle(
        SourceConstruct::Handlers(counter_handler_block()),
        &mut counter,
    );
    let out = match result.unwrap() {
        Emitted::Handlers(o) => o,
        other => panic!("expected a handler pair, got {:?}", other),
    };

    // A freshly numbered namespace, importing the actor type without its
    // generic arguments.
    assert_eq!(out.mod_name, s("__impl0"));
    let use_idents: Vec<String> = out.use_path.segs.iter().map(|g| g.ident.clone()).collect();
    assert_eq!(use_idents, vec![s("__CounterActor"), s("Counter")]);

    // Actor side: the real method, body untouched, scope normalized.
    let actor_idents: Vec<String> =
        out.actor_impl.self_ty.segs.iter().map(|g| g.ident.clone()).collect();
    assert_eq!(actor_idents, vec![s("__CounterActor"), s("Counter")]);
    assert_eq!(out.actor_impl.items.len(), 1);
    match &out.actor_impl.items[0] {
        ImplItem::Method(m) => {
            assert_eq!(m.name, s("increment"));
            assert_eq!(m.receiver, Receiver::Exclusive);
            assert_eq!(m.params, vec![Param { name: s("by"), ty: s("i64") }]);
            assert_eq!(m.body, MethodBody::Direct(s("self.count += by;")));
            // An unrestricted scope is already reachable and stays unchanged.
            assert_eq!(m.vis, Vis::Public);
        },
        other => panic!("expected a method, got {:?}", other),
    }

    // Handle side: same signature, body replaced by the forwarding dispatch.
    let handle_idents: Vec<String> =
        out.handle_impl.self_ty.segs.iter().map(|g| g.ident.clone()).collect();
    assert_eq!(handle_idents, vec![s("super"), s("Counter")]);
    assert_eq!(out.handle_impl.items.len(), 1);
    match &out.handle_impl.items[0] {
        ImplItem::Method(m) => {
            assert_eq!(m.name, s("increment"));
            assert_eq!(m.vis, Vis::Public);
            assert_eq!(m.receiver, Receiver::Exclusive);
            assert_eq!(m.params, vec![Param { name: s("by"), ty: s("i64") }]);
            assert_eq!(m.ret, None);
            assert_eq!(
                m.body,
                MethodBody::Forward { message: s("increment"), args: vec![s("by")] }
            );
        },
        other => panic!("expected a method, got {:?}", other),
    }

    assert!(diags.is_empty());
    assert_eq!(counter.next, 1);
}

#[test]
fn successive_handler_blocks_get_consecutive_namespaces() {
    let mut counter = ImplBlockCounter::new();
    let (first, _) = entangle(
        SourceConstruct::Handlers(counter_handler_block()),
        &mut counter,
    );
    let (second, _) = entangle(
        SourceConstruct::Handlers(counter_handler_block()),
        &mut counter,
    );
    let first = match first.unwrap() {
        Emitted::Handlers(o) => o,
        other => panic!("expected a handler pair, got {:?}", other),
    };
    let second = match second.unwrap() {
        Emitted::Handlers(o) => o,
        other => panic!("expected a handler pair, got {:?}", other),
    };
    assert_eq!(first.mod_name, s("__impl0"));
    assert_eq!(second.mod_name, s("__impl1"));
    assert_ne!(first.mod_name, second.mod_name);
    assert_eq!(counter.next, 2);
}

#[test]
fn tuple_target_is_a_user_error_with_no_output() {
    let block = HandlerImplBlock {
        generics: Vec::new(),
        self_ty: TargetType::Other(s("(i32, i32)")),
        items: vec![ImplItem::Method(increment_method())],
    };
    let mut counter = ImplBlockCounter::new();
    let (result, diags) = entangle(SourceConstruct::Handlers(block), &mut counter);
    assert_eq!(result, Err(TransformError::BadImplTarget(s("(i32, i32)"))));
    assert!(diags.is_empty());
    assert_eq!(counter.next, 0);
}

#[test]
fn unknown_item_is_an_internal_error() {
    let block = HandlerImplBlock {
        generics: Vec::new(),
        self_ty: TargetType::Path(path(vec![seg("Counter")])),
        items: vec![
            ImplItem::Method(increment_method()),
            ImplItem::Unknown(s("existential weirdness")),
        ],
    };
    let mut counter = ImplBlockCounter::new();
    let (result, diags) = entangle(SourceConstruct::Handlers(block), &mut counter);
    assert_eq!(
        result,
        Err(TransformError::UnknownImplItem(s("existential weirdness")))
    );
    assert!(diags.is_empty());
    assert_eq!(counter.next, 0);
}

#[test]
fn non_method_items_pass_through_and_methods_forward() {
    let block = HandlerImplBlock {
        generics: Vec::new(),
        self_ty: TargetType::Path(path(vec![seg("Counter")])),
        items: vec![
            ImplItem::ConstItem { vis: Vis::Public, name: s("MAX"), text: s("u32 = 10") },
            ImplItem::Method(increment_method()),
            ImplItem::MacroItem(s("a_macro!();")),
            ImplItem::Verbatim(s("verbatim tokens")),
            ImplItem::TypeAlias { vis: Vis::Inherited, name: s("Out"), text: s("= i64") },
        ],
    };
    let mut counter = ImplBlockCounter::new();
    let (result, _) = entangle(SourceConstruct::Handlers(block), &mut counter);
    let out = match result.unwrap() {
        Emitted::Handlers(o) => o,
        other => panic!("expected a handler pair, got {:?}", other),
    };
    assert_eq!(out.actor_impl.items.len(), 5);
    assert_eq!(out.handle_impl.items.len(), 5);

    // Handle side: everything but the method is exactly the input item.
    assert_eq!(
        out.handle_impl.items[0],
        ImplItem::ConstItem { vis: Vis::Public, name: s("MAX"), text: s("u32 = 10") }
    );
    assert_eq!(out.handle_impl.items[2], ImplItem::MacroItem(s("a_macro!();")));
    assert_eq!(out.handle_impl.items[3], ImplItem::Verbatim(s("verbatim tokens")));
    assert_eq!(
        out.handle_impl.items[4],
        ImplItem::TypeAlias { vis: Vis::Inherited, name: s("Out"), text: s("= i64") }
    );
    match &out.handle_impl.items[1] {
        ImplItem::Method(m) => {
            assert_eq!(
                m.body,
                MethodBody::Forward { message: s("increment"), args: vec![s("by")] }
            );
        },
        other => panic!("expected a method, got {:?}", other),
    }

    // Actor side: bodies untouched, declared scopes normalized.
    assert_eq!(
        out.actor_impl.items[0],
        ImplItem::ConstItem { vis: Vis::Public, name: s("MAX"), text: s("u32 = 10") }
    );
    assert_eq!(
        out.actor_impl.items[4],
        ImplItem::TypeAlias {
            vis: Vis::Restricted(vec![s("super")]),
            name: s("Out"),
            text: s("= i64"),
        }
    );
    match &out.actor_impl.items[1] {
        ImplItem::Method(m) => {
            assert_eq!(m.body, MethodBody::Direct(s("self.count += by;")));
        },
        other => panic!("expected a method, got {:?}", other),
    }
}

#[test]
fn interface_impl_rewrites_only_the_self_type() {
    let items = vec![
        ImplItem::Method(MethodItem {
            vis: Vis::Inherited,
            name: s("started"),
            receiver: Receiver::Exclusive,
            params: Vec::new(),
            ret: None,
            body: MethodBody::Direct(s("()")),
        }),
        ImplItem::TypeAlias { vis: Vis::Inherited, name: s("Stop"), text: s("= ()") },
    ];
    let block = InterfaceImplBlock {
        generics: vec![s("G")],
        trait_path: path(vec![seg("xtra"), seg("Actor")]),
        self_ty: TargetType::Path(path(vec![seg_with_args("Counter", &["G"])])),
        items: items.clone(),
    };
    let mut counter = ImplBlockCounter::new();
    let (result, diags) = entangle(SourceConstruct::Interface(block), &mut counter);
    let out = match result.unwrap() {
        Emitted::Interface(o) => o,
        other => panic!("expected an interface rewrite, got {:?}", other),
    };
    // No item is altered; the interface reference is untouched.
    assert_eq!(out.items, items);
    assert_eq!(out.trait_path, path(vec![seg("xtra"), seg("Actor")]));
    assert_eq!(out.generics, vec![s("G")]);
    // The self type gains exactly one segment, before the final one, and
    // the final segment keeps its generic arguments.
    assert_eq!(
        out.self_ty,
        path(vec![seg("__CounterActor"), seg_with_args("Counter", &["G"])])
    );
    assert!(diags.is_empty());
    assert_eq!(counter.next, 0);
}

#[test]
fn interface_impl_with_tuple_target_is_rejected() {
    let block = InterfaceImplBlock {
        generics: Vec::new(),
        trait_path: path(vec![seg("Actor")]),
        self_ty: TargetType::Other(s("&mut Thing")),
        items: Vec::new(),
    };
    let mut counter = ImplBlockCounter::new();
    let (result, diags) = entangle(SourceConstruct::Interface(block), &mut counter);
    assert_eq!(result, Err(TransformError::BadImplTarget(s("&mut Thing"))));
    assert!(diags.is_empty());
}

#[test]
fn multi_segment_target_keeps_its_prefix() {
    let block = HandlerImplBlock {
        generics: Vec::new(),
        self_ty: TargetType::Path(path(vec![
            seg("some"),
            seg("path"),
            seg_with_args("Counter", &["T"]),
        ])),
        items: Vec::new(),
    };
    let mut counter = ImplBlockCounter::new();
    let (result, _) = entangle(SourceConstruct::Handlers(block), &mut counter);
    let out = match result.unwrap() {
        Emitted::Handlers(o) => o,
        other => panic!("expected a handler pair, got {:?}", other),
    };
    let actor_idents: Vec<String> =
        out.actor_impl.self_ty.segs.iter().map(|g| g.ident.clone()).collect();
    assert_eq!(
        actor_idents,
        vec![s("some"), s("path"), s("__CounterActor"), s("Counter")]
    );
    // The actor self type keeps the generic arguments of the final segment;
    // the namespace import strips them.
    assert_eq!(out.actor_impl.self_ty.segs[3].args, vec![s("T")]);
    assert_eq!(out.use_path.segs[3].args, Vec::<String>::new());
    let use_idents: Vec<String> = out.use_path.segs.iter().map(|g| g.ident.clone()).collect();
    assert_eq!(
        use_idents,
        vec![s("some"), s("path"), s("__CounterActor"), s("Counter")]
    );
    // Handle side targets the public type through the enclosing scope.
    let handle_idents: Vec<String> =
        out.handle_impl.self_ty.segs.iter().map(|g| g.ident.clone()).collect();
    assert_eq!(
        handle_idents,
        vec![s("super"), s("some"), s("path"), s("Counter")]
    );
}
