//! The compact form of the interface specifications.
//!
//! Compaction walks an expanded specification tree once, in declared
//! field order, feeding every name string and every type descriptor
//! through the registry.  The compact tree has the same shape as the
//! expanded tree, but every string leaf is a one-based index into the
//! registry's string table and every type leaf a one-based index into
//! its types table.  Documentation strings pass through unchanged.

use vstd::prelude::*;

use crate::registry::{
    intern_at, interned_pos, register_type_model, Registry, RegistryModel, TypeModel,
};
use crate::specs::{
    ConstructorModel, ConstructorSpec, ContractModel, ContractSpec, EventModel, EventParamModel,
    EventParamSpec, EventSpec, MessageModel, MessageParamModel, MessageParamSpec, MessageSpec,
    ReturnTypeModel, ReturnTypeSpec, TypeSpec, TypeSpecModel,
};

verus! {

/// The mathematical value of a `CompactTypeSpec`.
#[verifier::ext_equal]
pub struct CompactTypeSpecModel {
    pub ty: int,
    pub display_name: Seq<int>,
}

/// The compact form of a type specification: the type as a types-table
/// index, the display-name segments as string-table indices.
#[derive(Debug, Clone, PartialEq, Eq)]
pub struct CompactTypeSpec {
    /// Index of the described type in the types table.
    pub ty: usize,
    /// Indices of the display-name path segments in the string table.
    pub display_name: Vec<usize>,
}

impl View for CompactTypeSpec {
    type V = CompactTypeSpecModel;

    open spec fn view(&self) -> CompactTypeSpecModel {
        CompactTypeSpecModel {
            ty: self.ty as int,
            display_name: self.display_name@.map_values(|x: usize| x as int),
        }
    }
}

/// The mathematical value of a `CompactMessageParamSpec`.
#[verifier::ext_equal]
pub struct CompactMessageParamModel {
    pub name: int,
    pub ty: CompactTypeSpecModel,
}

/// The compact form of a message or constructor parameter.
#[derive(Debug, Clone, PartialEq, Eq)]
pub struct CompactMessageParamSpec {
    /// Index of the parameter name in the string table.
    pub name: usize,
    /// The compact type of the parameter.
    pub ty: CompactTypeSpec,
}

impl View for CompactMessageParamSpec {
    type V = CompactMessageParamModel;

    open spec fn view(&self) -> CompactMessageParamModel {
        CompactMessageParamModel { name: self.name as int, ty: self.ty@ }
    }
}

/// The mathematical value of a `CompactReturnTypeSpec`.
pub type CompactReturnTypeModel = Option<CompactTypeSpecModel>;

/// The compact form of a return type; absence means no return value.
#[derive(Debug, Clone, PartialEq, Eq)]
pub struct CompactReturnTypeSpec {
    /// The compact return type, or `None` for no return value.
    pub opt_type: Option<CompactTypeSpec>,
}

impl View for CompactReturnTypeSpec {
    type V = CompactReturnTypeModel;

    open spec fn view(&self) -> CompactReturnTypeModel {
        match self.opt_type {
            Some(t) => Some(t@),
            None => None,
        }
    }
}

/// The mathematical value of a `CompactEventParamSpec`.
#[verifier::ext_equal]
pub struct CompactEventParamModel {
    pub name: int,
    pub indexed: bool,
    pub ty: CompactTypeSpecModel,
    pub docs: Seq<Seq<char>>,
}

/// The compact form of an event parameter.
#[derive(Debug, Clone, PartialEq, Eq)]
pub struct CompactEventParamSpec {
    /// Index of the parameter name in the string table.
    pub name: usize,
    /// If the event parameter is indexed.
    pub indexed: bool,
    /// The compact type of the parameter.
    pub ty: CompactTypeSpec,
    /// The documentation, passed through uninterned.
    pub docs: Vec<String>,
}

impl View for CompactEventParamSpec {
    type V = CompactEventParamModel;

    open spec fn view(&self) -> CompactEventParamModel {
        CompactEventParamModel {
            name: self.name as int,
            indexed: self.indexed,
            ty: self.ty@,
            docs: self.docs.deep_view(),
        }
    }
}

/// The mathematical value of a `CompactConstructorSpec`.
#[verifier::ext_equal]
pub struct CompactConstructorModel {
    pub name: int,
    pub selector: Seq<u8>,
    pub args: Seq<CompactMessageParamModel>,
    pub docs: Seq<Seq<char>>,
}

/// The compact form of a constructor.
#[derive(Debug, Clone, PartialEq, Eq)]
pub struct CompactConstructorSpec {
    /// Index of the constructor name in the string table.
    pub name: usize,
    /// The selector, passed through unchanged.
    pub selector: [u8; 4],
    /// The compact parameters, in order.
    pub args: Vec<CompactMessageParamSpec>,
    /// The documentation, passed through uninterned.
    pub docs: Vec<String>,
}

impl View for CompactConstructorSpec {
    type V = CompactConstructorModel;

    open spec fn view(&self) -> CompactConstructorModel {
        CompactConstructorModel {
            name: self.name as int,
            selector: self.selector@,
            args: Seq::new(self.args@.len(), |i: int| self.args@[i]@),
            docs: self.docs.deep_view(),
        }
    }
}

/// The mathematical value of a `CompactMessageSpec`.
#[verifier::ext_equal]
pub struct CompactMessageModel {
    pub name: int,
    pub selector: Seq<u8>,
    pub mutates: bool,
    pub args: Seq<CompactMessageParamModel>,
    pub return_type: CompactReturnTypeModel,
    pub docs: Seq<Seq<char>>,
}

/// The compact form of a message.
#[derive(Debug, Clone, PartialEq, Eq)]
pub struct CompactMessageSpec {
    /// Index of the message name in the string table.
    pub name: usize,
    /// The selector, passed through unchanged.
    pub selector: [u8; 4],
    /// If the message is allowed to mutate the contract state.
    pub mutates: bool,
    /// The compact parameters, in order.
    pub args: Vec<CompactMessageParamSpec>,
    /// The compact return type.
    pub return_type: CompactReturnTypeSpec,
    /// The documentation, passed through uninterned.
    pub docs: Vec<String>,
}

impl View for CompactMessageSpec {
    type V = CompactMessageModel;

    open spec fn view(&self) -> CompactMessageModel {
        CompactMessageModel {
            name: self.name as int,
            selector: self.selector@,
            mutates: self.mutates,
            args: Seq::new(self.args@.len(), |i: int| self.args@[i]@),
            return_type: self.return_type@,
            docs: self.docs.deep_view(),
        }
    }
}

/// The mathematical value of a `CompactEventSpec`.
#[verifier::ext_equal]
pub struct CompactEventModel {
    pub name: int,
    pub args: Seq<CompactEventParamModel>,
    pub docs: Seq<Seq<char>>,
}

/// The compact form of an event.
#[derive(Debug, Clone, PartialEq, Eq)]
pub struct CompactEventSpec {
    /// Index of the event name in the string table.
    pub name: usize,
    /// The compact event parameters, in order.
    pub args: Vec<CompactEventParamSpec>,
    /// The documentation, passed through uninterned.
    pub docs: Vec<String>,
}

impl View for CompactEventSpec {
    type V = CompactEventModel;

    open spec fn view(&self) -> CompactEventModel {
        CompactEventModel {
            name: self.name as int,
            args: Seq::new(self.args@.len(), |i: int| self.args@[i]@),
            docs: self.docs.deep_view(),
        }
    }
}

/// The mathematical value of a `CompactContractSpec`.
#[verifier::ext_equal]
pub struct CompactContractModel {
    pub name: int,
    pub constructors: Seq<CompactConstructorModel>,
    pub messages: Seq<CompactMessageModel>,
    pub events: Seq<CompactEventModel>,
    pub docs: Seq<Seq<char>>,
}

/// The compact form of a whole contract.
#[derive(Debug, Clone, PartialEq, Eq)]
pub struct CompactContractSpec {
    /// Index of the contract name in the string table.
    pub name: usize,
    /// The compact constructors, in order.
    pub constructors: Vec<CompactConstructorSpec>,
    /// The compact messages, in order.
    pub messages: Vec<CompactMessageSpec>,
    /// The compact events, in order.
    pub events: Vec<CompactEventSpec>,
    /// The documentation, passed through uninterned.
    pub docs: Vec<String>,
}

impl View for CompactContractSpec {
    type V = CompactContractModel;

    open spec fn view(&self) -> CompactContractModel {
        CompactContractModel {
            name: self.name as int,
            constructors: Seq::new(self.constructors@.len(), |i: int| self.constructors@[i]@),
            messages: Seq::new(self.messages@.len(), |i: int| self.messages@[i]@),
            events: Seq::new(self.events@.len(), |i: int| self.events@[i]@),
            docs: self.docs.deep_view(),
        }
    }
}

/// Interning a string: the one-based index it receives and the string
/// table afterwards.
pub open spec fn sc_string(s: Seq<char>, tbl: Seq<Seq<char>>) -> (int, Seq<Seq<char>>) {
    (interned_pos(tbl, s) + 1, intern_at(tbl, s))
}

/// Interning the display-name segments one by one, in order.
pub open spec fn sc_segments(segs: Seq<Seq<char>>, tbl: Seq<Seq<char>>) -> (Seq<int>, Seq<
    Seq<char>,
>)
    decreases segs.len(),
{
    if segs.len() == 0 {
        (Seq::empty(), tbl)
    } else {
        let rec = sc_segments(segs.subrange(0, segs.len() - 1), tbl);
        let last = sc_string(segs[segs.len() - 1], rec.1);
        (rec.0.push(last.0), last.1)
    }
}

/// Compacting a type specification: the type is registered first, then
/// the display-name segments are interned in order.
pub open spec fn sc_type_spec(t: TypeSpecModel, r: RegistryModel) -> (
    CompactTypeSpecModel,
    RegistryModel,
) {
    let ty_idx = interned_pos(r.types, t.ty) + 1;
    let types1 = register_type_model(r.types, t.ty);
    let dn = sc_segments(t.display_name, r.strings);
    (
        CompactTypeSpecModel { ty: ty_idx, display_name: dn.0 },
        RegistryModel { strings: dn.1, types: types1 },
    )
}

/// Compacting one message parameter: name, then type.
pub open spec fn sc_message_param(p: MessageParamModel, r: RegistryModel) -> (
    CompactMessageParamModel,
    RegistryModel,
) {
    let n = sc_string(p.name, r.strings);
    let tc = sc_type_spec(p.ty, RegistryModel { strings: n.1, types: r.types });
    (CompactMessageParamModel { name: n.0, ty: tc.0 }, tc.1)
}

/// Compacting a parameter list, in order.
pub open spec fn sc_message_params(ps: Seq<MessageParamModel>, r: RegistryModel) -> (Seq<
    CompactMessageParamModel,
>, RegistryModel)
    decreases ps.len(),
{
    if ps.len() == 0 {
        (Seq::empty(), r)
    } else {
        let rec = sc_message_params(ps.subrange(0, ps.len() - 1), r);
        let last = sc_message_param(ps[ps.len() - 1], rec.1);
        (rec.0.push(last.0), last.1)
    }
}

/// Compacting a return type.
pub open spec fn sc_return_type(rt: ReturnTypeModel, r: RegistryModel) -> (
    CompactReturnTypeModel,
    RegistryModel,
) {
    match rt {
        None => (None, r),
        Some(t) => {
            let tc = sc_type_spec(t, r);
            (Some(tc.0), tc.1)
        },
    }
}

/// Compacting one constructor: name, then arguments in order; selector
/// and documentation pass through.
pub open spec fn sc_constructor(c: ConstructorModel, r: RegistryModel) -> (
    CompactConstructorModel,
    RegistryModel,
) {
    let n = sc_string(c.name, r.strings);
    let ac = sc_message_params(c.args, RegistryModel { strings: n.1, types: r.types });
    (
        CompactConstructorModel { name: n.0, selector: c.selector, args: ac.0, docs: c.docs },
        ac.1,
    )
}

/// Compacting the constructor list, in order.
pub open spec fn sc_constructors(cs: Seq<ConstructorModel>, r: RegistryModel) -> (Seq<
    CompactConstructorModel,
>, RegistryModel)
    decreases cs.len(),
{
    if cs.len() == 0 {
        (Seq::empty(), r)
    } else {
        let rec = sc_constructors(cs.subrange(0, cs.len() - 1), r);
        let last = sc_constructor(cs[cs.len() - 1], rec.1);
        (rec.0.push(last.0), last.1)
    }
}

/// Compacting one message: name, then arguments, then return type;
/// selector, mutability and documentation pass through.
pub open spec fn sc_message(m: MessageModel, r: RegistryModel) -> (
    CompactMessageModel,
    RegistryModel,
) {
    let n = sc_string(m.name, r.strings);
    let ac = sc_message_params(m.args, RegistryModel { strings: n.1, types: r.types });
    let rc = sc_return_type(m.return_type, ac.1);
    (
        CompactMessageModel {
            name: n.0,
            selector: m.selector,
            mutates: m.mutates,
            args: ac.0,
            return_type: rc.0,
            docs: m.docs,
        },
        rc.1,
    )
}

/// Compacting the message list, in order.
pub open spec fn sc_messages(ms: Seq<MessageModel>, r: RegistryModel) -> (Seq<
    CompactMessageModel,
>, RegistryModel)
    decreases ms.len(),
{
    if ms.len() == 0 {
        (Seq::empty(), r)
    } else {
        let rec = sc_messages(ms.subrange(0, ms.len() - 1), r);
        let last = sc_message(ms[ms.len() - 1], rec.1);
        (rec.0.push(last.0), last.1)
    }
}

/// Compacting one event parameter: name, then type; the indexing flag
/// and documentation pass through.
pub open spec fn sc_event_param(p: EventParamModel, r: RegistryModel) -> (
    CompactEventParamModel,
    RegistryModel,
) {
    let n = sc_string(p.name, r.strings);
    let tc = sc_type_spec(p.ty, RegistryModel { strings: n.1, types: r.types });
    (
        CompactEventParamModel { name: n.0, indexed: p.indexed, ty: tc.0, docs: p.docs },
        tc.1,
    )
}

/// Compacting an event parameter list, in order.
pub open spec fn sc_event_params(ps: Seq<EventParamModel>, r: RegistryModel) -> (Seq<
    CompactEventParamModel,
>, RegistryModel)
    decreases ps.len(),
{
    if ps.len() == 0 {
        (Seq::empty(), r)
    } else {
        let rec = sc_event_params(ps.subrange(0, ps.len() - 1), r);
        let last = sc_event_param(ps[ps.len() - 1], rec.1);
        (rec.0.push(last.0), last.1)
    }
}

/// Compacting one event: name, then parameters in order.
pub open spec fn sc_event(e: EventModel, r: RegistryModel) -> (CompactEventModel, RegistryModel) {
    let n = sc_string(e.name, r.strings);
    let ac = sc_event_params(e.args, RegistryModel { strings: n.1, types: r.types });
    (CompactEventModel { name: n.0, args: ac.0, docs: e.docs }, ac.1)
}

/// Compacting the event list, in order.
pub open spec fn sc_events(es: Seq<EventModel>, r: RegistryModel) -> (Seq<CompactEventModel>, RegistryModel)
    decreases es.len(),
{
    if es.len() == 0 {
        (Seq::empty(), r)
    } else {
        let rec = sc_events(es.subrange(0, es.len() - 1), r);
        let last = sc_event(es[es.len() - 1], rec.1);
        (rec.0.push(last.0), last.1)
    }
}

/// Compacting a whole contract: name, then constructors, then
/// messages, then events, depth-first and in declared field order.
/// This traversal order is the contract for index assignment.
pub open spec fn sc_contract(c: ContractModel, r: RegistryModel) -> (
    CompactContractModel,
    RegistryModel,
) {
    let n = sc_string(c.name, r.strings);
    let cc = sc_constructors(c.constructors, RegistryModel { strings: n.1, types: r.types });
    let mc = sc_messages(c.messages, cc.1);
    let ec = sc_events(c.events, mc.1);
    (
        CompactContractModel {
            name: n.0,
            constructors: cc.0,
            messages: mc.0,
            events: ec.0,
            docs: c.docs,
        },
        ec.1,
    )
}

/// Compaction is a pure function of the expanded value and the
/// starting registry: equal inputs give equal compact output and equal
/// final tables, so compacting the same contract twice from the same
/// registry state is deterministic.
pub proof fn lemma_compact_deterministic(
    c1: ContractModel,
    c2: ContractModel,
    r1: RegistryModel,
    r2: RegistryModel,
)
    requires
        c1 == c2,
        r1 == r2,
    ensures
        sc_contract(c1, r1) == sc_contract(c2, r2),
{
}

impl TypeSpec {
    /// Converts this type specification into its compact form,
    /// registering the described type and interning the display-name
    /// segments.
    pub fn into_compact(&self, registry: &mut Registry) -> (c: CompactTypeSpec)
        requires
            old(registry)@.wf(),
        ensures
            final(registry)@.wf(),
            c@ == sc_type_spec(self@, old(registry)@).0,
            final(registry)@ == sc_type_spec(self@, old(registry)@).1,
    {
        let ty = registry.register_type(&self.ty);
        let ghost r1 = registry@;
        let mut display_name: Vec<usize> = Vec::new();
        let ghost segs = self@.display_name;
        let mut i: usize = 0;
        while i < self.display_name.segments.len()
            invariant
                i <= self.display_name.segments.len(),
                registry@.wf(),
                segs == self.display_name.segments.deep_view(),
                segs.len() == self.display_name.segments@.len(),
                registry@.types == r1.types,
                display_name@.len() == i,
                display_name@.map_values(|x: usize| x as int) == sc_segments(
                    segs.subrange(0, i as int),
                    r1.strings,
                ).0,
                registry@.strings == sc_segments(segs.subrange(0, i as int), r1.strings).1,
            decreases self.display_name.segments.len() - i,
        {
            proof {
                assert(self.display_name.segments.deep_view()[i as int]
                    == self.display_name.segments@[i as int]@);
            }
            let idx = registry.register_string(self.display_name.segments[i].clone());
            display_name.push(idx);
            proof {
                let pre = segs.subrange(0, i as int);
                let cur = segs.subrange(0, (i + 1) as int);
                assert(cur.subrange(0, cur.len() - 1) =~= pre);
                assert(cur[cur.len() - 1] == segs[i as int]);
                assert(display_name@.map_values(|x: usize| x as int) =~= sc_segments(
                    cur,
                    r1.strings,
                ).0);
            }
            i += 1;
        }
        let c = CompactTypeSpec { ty, display_name };
        proof {
            assert(segs.subrange(0, segs.len() as int) =~= segs);
            assert(registry@ =~= sc_type_spec(self@, old(registry)@).1);
            assert(c@ =~= sc_type_spec(self@, old(registry)@).0);
        }
        c
    }
}

impl MessageParamSpec {
    /// Converts this parameter into its compact form: the name is
    /// interned, then the type is compacted.
    pub fn into_compact(&self, registry: &mut Registry) -> (c: CompactMessageParamSpec)
        requires
            old(registry)@.wf(),
        ensures
            final(registry)@.wf(),
            c@ == sc_message_param(self@, old(registry)@).0,
            final(registry)@ == sc_message_param(self@, old(registry)@).1,
    {
        let name = registry.register_string(self.name.clone());
        proof {
            assert(registry@ =~= RegistryModel {
                strings: intern_at(old(registry)@.strings, self@.name),
                types: old(registry)@.types,
            });
        }
        let ty = self.ty.into_compact(registry);
        let c = CompactMessageParamSpec { name, ty };
        proof {
            assert(c@ =~= sc_message_param(self@, old(registry)@).0);
        }
        c
    }
}

impl ReturnTypeSpec {
    /// Converts this return type into its compact form.
    pub fn into_compact(&self, registry: &mut Registry) -> (c: CompactReturnTypeSpec)
        requires
            old(registry)@.wf(),
        ensures
            final(registry)@.wf(),
            c@ == sc_return_type(self@, old(registry)@).0,
            final(registry)@ == sc_return_type(self@, old(registry)@).1,
    {
        match &self.opt_type {
            None => CompactReturnTypeSpec { opt_type: None },
            Some(t) => {
                let tc = t.into_compact(registry);
                CompactReturnTypeSpec { opt_type: Some(tc) }
            },
        }
    }
}

impl ConstructorSpec {
    /// Converts this constructor into its compact form: name, then the
    /// arguments in order; selector and documentation pass through.
    pub fn into_compact(&self, registry: &mut Registry) -> (c: CompactConstructorSpec)
        requires
            old(registry)@.wf(),
        ensures
            final(registry)@.wf(),
            c@ == sc_constructor(self@, old(registry)@).0,
            final(registry)@ == sc_constructor(self@, old(registry)@).1,
    {
        let name = registry.register_string(self.name.clone());
        let ghost r1 = registry@;
        proof {
            assert(r1 =~= RegistryModel {
                strings: intern_at(old(registry)@.strings, self@.name),
                types: old(registry)@.types,
            });
        }
        let ghost ams = self@.args;
        let mut args: Vec<CompactMessageParamSpec> = Vec::new();
        let mut i: usize = 0;
        while i < self.args.len()
            invariant
                i <= self.args.len(),
                registry@.wf(),
                ams == self@.args,
                ams.len() == self.args@.len(),
                forall|j: int| 0 <= j < self.args@.len() ==> ams[j] == self.args@[j]@,
                args@.len() == i,
                Seq::new(args@.len(), |j: int| args@[j]@) == sc_message_params(
                    ams.subrange(0, i as int),
                    r1,
                ).0,
                registry@ == sc_message_params(ams.subrange(0, i as int), r1).1,
            decreases self.args.len() - i,
        {
            let ca = self.args[i].into_compact(registry);
            args.push(ca);
            proof {
                let pre = ams.subrange(0, i as int);
                let cur = ams.subrange(0, (i + 1) as int);
                assert(cur.subrange(0, cur.len() - 1) =~= pre);
                assert(cur[cur.len() - 1] == ams[i as int]);
                assert(Seq::new(args@.len(), |j: int| args@[j]@) =~= sc_message_params(
                    cur,
                    r1,
                ).0);
            }
            i += 1;
        }
        let docs = crate::registry::clone_strings(&self.docs);
        let c = CompactConstructorSpec { name, selector: self.selector, args, docs };
        proof {
            assert(ams.subrange(0, ams.len() as int) =~= ams);
            assert(c@ =~= sc_constructor(self@, old(registry)@).0);
            assert(registry@ =~= sc_constructor(self@, old(registry)@).1);
        }
        c
    }
}

impl MessageSpec {
    /// Converts this message into its compact form: name, then the
    /// arguments in order, then the return type; selector, mutability
    /// and documentation pass through.
    pub fn into_compact(&self, registry: &mut Registry) -> (c: CompactMessageSpec)
        requires
            old(registry)@.wf(),
        ensures
            final(registry)@.wf(),
            c@ == sc_message(self@, old(registry)@).0,
            final(registry)@ == sc_message(self@, old(registry)@).1,
    {
        let name = registry.register_string(self.name.clone());
        let ghost r1 = registry@;
        proof {
            assert(r1 =~= RegistryModel {
                strings: intern_at(old(registry)@.strings, self@.name),
                types: old(registry)@.types,
            });
        }
        let ghost ams = self@.args;
        let mut args: Vec<CompactMessageParamSpec> = Vec::new();
        let mut i: usize = 0;
        while i < self.args.len()
            invariant
                i <= self.args.len(),
                registry@.wf(),
                ams == self@.args,
                ams.len() == self.args@.len(),
                forall|j: int| 0 <= j < self.args@.len() ==> ams[j] == self.args@[j]@,
                args@.len() == i,
                Seq::new(args@.len(), |j: int| args@[j]@) == sc_message_params(
                    ams.subrange(0, i as int),
                    r1,
                ).0,
                registry@ == sc_message_params(ams.subrange(0, i as int), r1).1,
            decreases self.args.len() - i,
        {
            let ca = self.args[i].into_compact(registry);
            args.push(ca);
            proof {
                let pre = ams.subrange(0, i as int);
                let cur = ams.subrange(0, (i + 1) as int);
                assert(cur.subrange(0, cur.len() - 1) =~= pre);
                assert(cur[cur.len() - 1] == ams[i as int]);
                assert(Seq::new(args@.len(), |j: int| args@[j]@) =~= sc_message_params(
                    cur,
                    r1,
                ).0);
            }
            i += 1;
        }
        proof {
            assert(ams.subrange(0, ams.len() as int) =~= ams);
        }
        let return_type = self.return_type.into_compact(registry);
        let docs = crate::registry::clone_strings(&self.docs);
        let c = CompactMessageSpec {
            name,
            selector: self.selector,
            mutates: self.mutates,
            args,
            return_type,
            docs,
        };
        proof {
            assert(c@ =~= sc_message(self@, old(registry)@).0);
            assert(registry@ =~= sc_message(self@, old(registry)@).1);
        }
        c
    }
}

impl EventParamSpec {
    /// Converts this event parameter into its compact form: the name
    /// is interned, then the type is compacted; the indexing flag and
    /// documentation pass through.
    pub fn into_compact(&self, registry: &mut Registry) -> (c: CompactEventParamSpec)
        requires
            old(registry)@.wf(),
        ensures
            final(registry)@.wf(),
            c@ == sc_event_param(self@, old(registry)@).0,
            final(registry)@ == sc_event_param(self@, old(registry)@).1,
    {
        let name = registry.register_string(self.name.clone());
        proof {
            assert(registry@ =~= RegistryModel {
                strings: intern_at(old(registry)@.strings, self@.name),
                types: old(registry)@.types,
            });
        }
        let ty = self.ty.into_compact(registry);
        let docs = crate::registry::clone_strings(&self.docs);
        let c = CompactEventParamSpec { name, indexed: self.indexed, ty, docs };
        proof {
            assert(c@ =~= sc_event_param(self@, old(registry)@).0);
        }
        c
    }
}

impl EventSpec {
    /// Converts this event into its compact form: name, then the
    /// parameters in order.
    pub fn into_compact(&self, registry: &mut Registry) -> (c: CompactEventSpec)
        requires
            old(registry)@.wf(),
        ensures
            final(registry)@.wf(),
            c@ == sc_event(self@, old(registry)@).0,
            final(registry)@ == sc_event(self@, old(registry)@).1,
    {
        let name = registry.register_string(self.name.clone());
        let ghost r1 = registry@;
        proof {
            assert(r1 =~= RegistryModel {
                strings: intern_at(old(registry)@.strings, self@.name),
                types: old(registry)@.types,
            });
        }
        let ghost ams = self@.args;
        let mut args: Vec<CompactEventParamSpec> = Vec::new();
        let mut i: usize = 0;
        while i < self.args.len()
            invariant
                i <= self.args.len(),
                registry@.wf(),
                ams == self@.args,
                ams.len() == self.args@.len(),
                forall|j: int| 0 <= j < self.args@.len() ==> ams[j] == self.args@[j]@,
                args@.len() == i,
                Seq::new(args@.len(), |j: int| args@[j]@) == sc_event_params(
                    ams.subrange(0, i as int),
                    r1,
                ).0,
                registry@ == sc_event_params(ams.subrange(0, i as int), r1).1,
            decreases self.args.len() - i,
        {
            let ca = self.args[i].into_compact(registry);
            args.push(ca);
            proof {
                let pre = ams.subrange(0, i as int);
                let cur = ams.subrange(0, (i + 1) as int);
                assert(cur.subrange(0, cur.len() - 1) =~= pre);
                assert(cur[cur.len() - 1] == ams[i as int]);
                assert(Seq::new(args@.len(), |j: int| args@[j]@) =~= sc_event_params(
                    cur,
                    r1,
                ).0);
            }
            i += 1;
        }
        let docs = crate::registry::clone_strings(&self.docs);
        let c = CompactEventSpec { name, args, docs };
        proof {
            assert(ams.subrange(0, ams.len() as int) =~= ams);
            assert(c@ =~= sc_event(self@, old(registry)@).0);
            assert(registry@ =~= sc_event(self@, old(registry)@).1);
        }
        c
    }
}

impl ContractSpec {
    /// Converts this contract into its compact form: the contract name
    /// first, then constructors, messages and events, depth-first and
    /// in declared field order.  The registry afterwards holds every
    /// distinct name string and type descriptor exactly once.
    pub fn into_compact(&self, registry: &mut Registry) -> (c: CompactContractSpec)
        requires
            old(registry)@.wf(),
        ensures
            final(registry)@.wf(),
            c@ == sc_contract(self@, old(registry)@).0,
            final(registry)@ == sc_contract(self@, old(registry)@).1,
    {
        let name = registry.register_string(self.name.clone());
        let ghost r1 = registry@;
        proof {
            assert(r1 =~= RegistryModel {
                strings: intern_at(old(registry)@.strings, self@.name),
                types: old(registry)@.types,
            });
        }
        let ghost cms = self@.constructors;
        let mut constructors: Vec<CompactConstructorSpec> = Vec::new();
        let mut i: usize = 0;
        while i < self.constructors.len()
            invariant
                i <= self.constructors.len(),
                registry@.wf(),
                cms == self@.constructors,
                cms.len() == self.constructors@.len(),
                forall|j: int| 0 <= j < self.constructors@.len() ==> cms[j]
                    == self.constructors@[j]@,
                constructors@.len() == i,
                Seq::new(constructors@.len(), |j: int| constructors@[j]@) == sc_constructors(
                    cms.subrange(0, i as int),
                    r1,
                ).0,
                registry@ == sc_constructors(cms.subrange(0, i as int), r1).1,
            decreases self.constructors.len() - i,
        {
            let cc = self.constructors[i].into_compact(registry);
            constructors.push(cc);
            proof {
                let pre = cms.subrange(0, i as int);
                let cur = cms.subrange(0, (i + 1) as int);
                assert(cur.subrange(0, cur.len() - 1) =~= pre);
                assert(cur[cur.len() - 1] == cms[i as int]);
                assert(Seq::new(constructors@.len(), |j: int| constructors@[j]@)
                    =~= sc_constructors(cur, r1).0);
            }
            i += 1;
        }
        let ghost r2 = registry@;
        proof {
            assert(cms.subrange(0, cms.len() as int) =~= cms);
            assert(r2 == sc_constructors(cms, r1).1);
        }
        let ghost mms = self@.messages;
        let mut messages: Vec<CompactMessageSpec> = Vec::new();
        let mut i: usize = 0;
        while i < self.messages.len()
            invariant
                i <= self.messages.len(),
                registry@.wf(),
                mms == self@.messages,
                mms.len() == self.messages@.len(),
                forall|j: int| 0 <= j < self.messages@.len() ==> mms[j] == self.messages@[j]@,
                messages@.len() == i,
                Seq::new(messages@.len(), |j: int| messages@[j]@) == sc_messages(
                    mms.subrange(0, i as int),
                    r2,
                ).0,
                registry@ == sc_messages(mms.subrange(0, i as int), r2).1,
            decreases self.messages.len() - i,
        {
            let cm = self.messages[i].into_compact(registry);
            messages.push(cm);
            proof {
                let pre = mms.subrange(0, i as int);
                let cur = mms.subrange(0, (i + 1) as int);
                assert(cur.subrange(0, cur.len() - 1) =~= pre);
                assert(cur[cur.len() - 1] == mms[i as int]);
                assert(Seq::new(messages@.len(), |j: int| messages@[j]@) =~= sc_messages(
                    cur,
                    r2,
                ).0);
            }
            i += 1;
        }
        let ghost r3 = registry@;
        proof {
            assert(mms.subrange(0, mms.len() as int) =~= mms);
            assert(r3 == sc_messages(mms, r2).1);
        }
        let ghost ems = self@.events;
        let mut events: Vec<CompactEventSpec> = Vec::new();
        let mut i: usize = 0;
        while i < self.events.len()
            invariant
                i <= self.events.len(),
                registry@.wf(),
                ems == self@.events,
                ems.len() == self.events@.len(),
                forall|j: int| 0 <= j < self.events@.len() ==> ems[j] == self.events@[j]@,
                events@.len() == i,
                Seq::new(events@.len(), |j: int| events@[j]@) == sc_events(
                    ems.subrange(0, i as int),
                    r3,
                ).0,
                registry@ == sc_events(ems.subrange(0, i as int), r3).1,
            decreases self.events.len() - i,
        {
            let ce = self.events[i].into_compact(registry);
            events.push(ce);
            proof {
                let pre = ems.subrange(0, i as int);
                let cur = ems.subrange(0, (i + 1) as int);
                assert(cur.subrange(0, cur.len() - 1) =~= pre);
                assert(cur[cur.len() - 1] == ems[i as int]);
                assert(Seq::new(events@.len(), |j: int| events@[j]@) =~= sc_events(cur, r3).0);
            }
            i += 1;
        }
        let docs = crate::registry::clone_strings(&self.docs);
        let c = CompactContractSpec { name, constructors, messages, events, docs };
        proof {
            assert(ems.subrange(0, ems.len() as int) =~= ems);
            assert(c@ =~= sc_contract(self@, old(registry)@).0);
            assert(registry@ =~= sc_contract(self@, old(registry)@).1);
        }
        c
    }
}

} // verus!
