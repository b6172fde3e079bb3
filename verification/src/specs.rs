//! The expanded interface specifications and their staged builders.
//!
//! An expanded specification holds literal strings and type
//! descriptors.  Each entity is produced by a builder that starts from
//! a name, lets each field be set at most once, and hands out the
//! finished value only when every required field has been set:
//! a constructor requires its selector, a message its selector,
//! mutability and return type, and a contract at least one constructor
//! and one message.

use core::marker::PhantomData;

use vstd::prelude::*;

use crate::ident::{is_valid_display_name, split_dc, split_double_colon, valid_display_name};
use crate::registry::{TypeDescriptor, TypeModel};

verus! {

/// Error raised when a builder protocol is violated.
#[derive(Debug, Clone, Copy, PartialEq, Eq, Structural)]
pub enum SpecError {
    /// `done` was called before the selector was set.
    MissingSelector,
    /// `done` was called before the mutability flag was set.
    MissingMutates,
    /// `done` was called before the return type was set.
    MissingReturnType,
    /// A contract was finalized without any constructor.
    NoConstructors,
    /// A contract was finalized without any message.
    NoMessages,
    /// A display name was not a non-empty path of valid identifiers.
    InvalidDisplayName,
}

/// An optional alias path attached to a type reference, such as a type
/// alias name standing in for an underlying primitive.  An empty path
/// means that no alias is communicated.
#[derive(Debug, Clone, PartialEq, Eq)]
pub struct DisplayName {
    /// The path segments, in order.
    pub segments: Vec<String>,
}

impl DisplayName {
    /// Every segment of the path is a valid identifier.
    pub open spec fn wf(self) -> bool {
        forall|i: int|
            0 <= i < self.segments.deep_view().len() ==> crate::ident::valid_ident(
                #[trigger] self.segments.deep_view()[i],
            )
    }

    /// The empty display name: no alias.
    pub fn prelude() -> (r: Self)
        ensures
            r.segments.deep_view() == Seq::<Seq<char>>::empty(),
            r.wf(),
    {
        let r = DisplayName { segments: Vec::new() };
        proof {
            assert(r.segments.deep_view() =~= Seq::<Seq<char>>::empty());
        }
        r
    }

    /// Creates a display name from path segments.  Fails unless there
    /// is at least one segment and every segment is a valid
    /// identifier.
    pub fn new(segments: Vec<String>) -> (r: Result<Self, SpecError>)
        ensures
            r is Ok <==> valid_display_name(segments.deep_view()),
            r matches Ok(d) ==> d.segments == segments && d.wf(),
            r is Err ==> r == Err::<Self, SpecError>(SpecError::InvalidDisplayName),
    {
        if is_valid_display_name(&segments) {
            Ok(DisplayName { segments })
        } else {
            Err(SpecError::InvalidDisplayName)
        }
    }
}

/// The mathematical value of a `TypeSpec`.
#[verifier::ext_equal]
pub struct TypeSpecModel {
    pub ty: TypeModel,
    pub display_name: Seq<Seq<char>>,
}

/// A type specification: the described type together with an optional
/// display name communicating the alias it is used through.
pub struct TypeSpec {
    /// The actual type.
    pub ty: TypeDescriptor,
    /// The compile-time known displayed representation of the type.
    pub display_name: DisplayName,
}

impl View for TypeSpec {
    type V = TypeSpecModel;

    open spec fn view(&self) -> TypeSpecModel {
        TypeSpecModel { ty: self.ty@, display_name: self.display_name.segments.deep_view() }
    }
}

impl TypeSpec {
    /// Creates a new type specification without a display name.
    pub fn new(ty: TypeDescriptor) -> (r: Self)
        ensures
            r.ty == ty,
            r@.ty == ty@,
            r@.display_name == Seq::<Seq<char>>::empty(),
    {
        TypeSpec { ty, display_name: DisplayName::prelude() }
    }

    /// Creates a new type specification with a display name given as
    /// path segments.  Fails unless the segments form a valid
    /// display-name path.
    pub fn with_name_segs(ty: TypeDescriptor, segments: Vec<String>) -> (r: Result<
        Self,
        SpecError,
    >)
        ensures
            r is Ok <==> valid_display_name(segments.deep_view()),
            r matches Ok(t) ==> t.ty == ty && t.display_name.segments == segments,
            r is Err ==> r == Err::<Self, SpecError>(SpecError::InvalidDisplayName),
    {
        match DisplayName::new(segments) {
            Ok(display_name) => Ok(TypeSpec { ty, display_name }),
            Err(e) => Err(e),
        }
    }

    /// Creates a new type specification with a display name given as a
    /// `::`-delimited path string, such as `foo`, `foo::bar` or
    /// `foo::bar::Baz`.  Fails unless every path segment is a valid
    /// identifier.
    pub fn with_name_str(ty: TypeDescriptor, display_name: &str) -> (r: Result<Self, SpecError>)
        ensures
            r is Ok <==> valid_display_name(split_dc(display_name@)),
            r matches Ok(t) ==> t.ty == ty && t.display_name.segments.deep_view() == split_dc(
                display_name@,
            ),
            r is Err ==> r == Err::<Self, SpecError>(SpecError::InvalidDisplayName),
    {
        Self::with_name_segs(ty, split_double_colon(display_name))
    }
}

/// The mathematical value of a `MessageParamSpec`.
#[verifier::ext_equal]
pub struct MessageParamModel {
    pub name: Seq<char>,
    pub ty: TypeSpecModel,
}

/// A pair of parameter name and type.
pub struct MessageParamSpec {
    /// The name of the parameter.
    pub name: String,
    /// The type of the parameter.
    pub ty: TypeSpec,
}

impl View for MessageParamSpec {
    type V = MessageParamModel;

    open spec fn view(&self) -> MessageParamModel {
        MessageParamModel { name: self.name@, ty: self.ty@ }
    }
}

/// Used to construct a message parameter specification.
pub struct MessageParamSpecBuilder {
    /// The specification under construction.
    pub inner: MessageParamSpec,
}

impl MessageParamSpec {
    /// Constructs a new message parameter specification via builder.
    /// The parameter type starts out as the unit type.
    pub fn new(name: String) -> (b: MessageParamSpecBuilder)
        ensures
            b.inner.name == name,
            b.inner.ty@.ty.segments == Seq::<Seq<char>>::empty(),
            b.inner.ty@.ty.params == Seq::<TypeModel>::empty(),
            b.inner.ty@.display_name == Seq::<Seq<char>>::empty(),
    {
        MessageParamSpecBuilder {
            inner: MessageParamSpec { name, ty: TypeSpec::new(TypeDescriptor::unit()) },
        }
    }
}

impl MessageParamSpecBuilder {
    /// Sets the type of the message parameter.
    pub fn of_type(self, ty: TypeSpec) -> (b: Self)
        ensures
            b.inner.name == self.inner.name,
            b.inner.ty == ty,
    {
        let mut this = self;
        this.inner.ty = ty;
        this
    }

    /// Finishes construction of the message parameter.
    pub fn done(self) -> (r: MessageParamSpec)
        ensures
            r == self.inner,
    {
        self.inner
    }
}

/// The mathematical value of an `EventParamSpec`.
#[verifier::ext_equal]
pub struct EventParamModel {
    pub name: Seq<char>,
    pub indexed: bool,
    pub ty: TypeSpecModel,
    pub docs: Seq<Seq<char>>,
}

/// A parameter of an event: name, indexing flag, type and
/// documentation.
pub struct EventParamSpec {
    /// The name of the parameter.
    pub name: String,
    /// If the event parameter is indexed.
    pub indexed: bool,
    /// The type of the parameter.
    pub ty: TypeSpec,
    /// The documentation associated with the parameter.
    pub docs: Vec<String>,
}

impl View for EventParamSpec {
    type V = EventParamModel;

    open spec fn view(&self) -> EventParamModel {
        EventParamModel {
            name: self.name@,
            indexed: self.indexed,
            ty: self.ty@,
            docs: self.docs.deep_view(),
        }
    }
}

/// Used to construct an event parameter specification.
pub struct EventParamSpecBuilder {
    /// The specification under construction.
    pub inner: EventParamSpec,
}

impl EventParamSpec {
    /// Creates a new event parameter specification builder.  The
    /// parameter starts out not indexed, of unit type and without
    /// documentation.
    pub fn new(name: String) -> (b: EventParamSpecBuilder)
        ensures
            b.inner.name == name,
            b.inner.indexed == false,
            b.inner.ty@.ty.segments == Seq::<Seq<char>>::empty(),
            b.inner.ty@.ty.params == Seq::<TypeModel>::empty(),
            b.inner.ty@.display_name == Seq::<Seq<char>>::empty(),
            b.inner.docs@.len() == 0,
    {
        EventParamSpecBuilder {
            inner: EventParamSpec {
                name,
                indexed: false,
                ty: TypeSpec::new(TypeDescriptor::unit()),
                docs: Vec::new(),
            },
        }
    }
}

impl EventParamSpecBuilder {
    /// Sets the type of the event parameter.
    pub fn of_type(self, ty: TypeSpec) -> (b: Self)
        ensures
            b.inner == (EventParamSpec { ty, ..self.inner }),
    {
        let mut this = self;
        this.inner.ty = ty;
        this
    }

    /// Sets whether the event parameter is indexed.
    pub fn indexed(self, is_indexed: bool) -> (b: Self)
        ensures
            b.inner == (EventParamSpec { indexed: is_indexed, ..self.inner }),
    {
        let mut this = self;
        this.inner.indexed = is_indexed;
        this
    }

    /// Sets the documentation of the event parameter; it may be set at
    /// most once.
    pub fn docs(self, docs: Vec<String>) -> (b: Self)
        requires
            self.inner.docs@.len() == 0,
        ensures
            b.inner == (EventParamSpec { docs, ..self.inner }),
    {
        let mut this = self;
        this.inner.docs = docs;
        this
    }

    /// Finishes constructing the event parameter specification.
    pub fn done(self) -> (r: EventParamSpec)
        ensures
            r == self.inner,
    {
        self.inner
    }
}

/// The mathematical value of a `ReturnTypeSpec`.
pub type ReturnTypeModel = Option<TypeSpecModel>;

/// The return type of a contract message; absence means that the
/// message returns no value.
pub struct ReturnTypeSpec {
    /// The return type, or `None` for no return value.
    pub opt_type: Option<TypeSpec>,
}

impl View for ReturnTypeSpec {
    type V = ReturnTypeModel;

    open spec fn view(&self) -> ReturnTypeModel {
        match self.opt_type {
            Some(t) => Some(t@),
            None => None,
        }
    }
}

impl ReturnTypeSpec {
    /// Creates a new return type specification from the given type or
    /// `None`.
    pub fn new(ty: Option<TypeSpec>) -> (r: Self)
        ensures
            r.opt_type == ty,
    {
        ReturnTypeSpec { opt_type: ty }
    }
}

/// The mathematical value of a `ConstructorSpec`.
#[verifier::ext_equal]
pub struct ConstructorModel {
    pub name: Seq<char>,
    pub selector: Seq<u8>,
    pub args: Seq<MessageParamModel>,
    pub docs: Seq<Seq<char>>,
}

/// A constructor of a contract: name, selector, arguments and
/// documentation.
pub struct ConstructorSpec {
    /// The name of the constructor.
    pub name: String,
    /// The selector hash of the constructor.
    pub selector: [u8; 4],
    /// The parameters of the constructor.
    pub args: Vec<MessageParamSpec>,
    /// The constructor documentation.
    pub docs: Vec<String>,
}

impl View for ConstructorSpec {
    type V = ConstructorModel;

    open spec fn view(&self) -> ConstructorModel {
        ConstructorModel {
            name: self.name@,
            selector: self.selector@,
            args: Seq::new(self.args@.len(), |i: int| self.args@[i]@),
            docs: self.docs.deep_view(),
        }
    }
}

/// A builder for constructors.  The selector must be set before the
/// constructor can be finished.
pub struct ConstructorSpecBuilder<S> {
    /// The specification under construction.
    pub inner: ConstructorSpec,
    /// Whether the selector has been set.
    pub selector_set: bool,
    /// Marker tracking at the type level which required fields are
    /// still missing.
    pub marker: PhantomData<S>,
}

impl ConstructorSpec {
    /// Creates a new constructor spec builder.
    pub fn new(name: String) -> (b: ConstructorSpecBuilder<Missing<Selector>>)
        ensures
            b.inner.name == name,
            b.inner.args@.len() == 0,
            b.inner.docs@.len() == 0,
            !b.selector_set,
    {
        ConstructorSpecBuilder {
            inner: ConstructorSpec {
                name,
                selector: [0u8, 0u8, 0u8, 0u8],
                args: Vec::new(),
                docs: Vec::new(),
            },
            selector_set: false,
            marker: PhantomData,
        }
    }
}

impl ConstructorSpecBuilder<Missing<Selector>> {
    /// Sets the function selector of the constructor.
    pub fn selector(self, selector: [u8; 4]) -> (b: ConstructorSpecBuilder<Selector>)
        ensures
            b.inner == (ConstructorSpec { selector, ..self.inner }),
            b.selector_set,
    {
        ConstructorSpecBuilder {
            inner: ConstructorSpec { selector, ..self.inner },
            selector_set: true,
            marker: PhantomData,
        }
    }
}

impl<S> ConstructorSpecBuilder<S> {
    /// Sets the input arguments of the constructor; they may be set at
    /// most once.
    pub fn args(self, args: Vec<MessageParamSpec>) -> (b: Self)
        requires
            self.inner.args@.len() == 0,
        ensures
            b.inner == (ConstructorSpec { args, ..self.inner }),
            b.selector_set == self.selector_set,
    {
        let mut this = self;
        this.inner.args = args;
        this
    }

    /// Sets the documentation of the constructor; it may be set at
    /// most once.
    pub fn docs(self, docs: Vec<String>) -> (b: Self)
        requires
            self.inner.docs@.len() == 0,
        ensures
            b.inner == (ConstructorSpec { docs, ..self.inner }),
            b.selector_set == self.selector_set,
    {
        let mut this = self;
        this.inner.docs = docs;
        this
    }

    /// Finishes construction of the constructor.  Fails unless the
    /// selector has been set.
    pub fn done(self) -> (r: Result<ConstructorSpec, SpecError>)
        ensures
            self.selector_set ==> r == Ok::<ConstructorSpec, SpecError>(self.inner),
            !self.selector_set ==> r == Err::<ConstructorSpec, SpecError>(
                SpecError::MissingSelector,
            ),
    {
        if self.selector_set {
            Ok(self.inner)
        } else {
            Err(SpecError::MissingSelector)
        }
    }
}

/// The mathematical value of a `MessageSpec`.
#[verifier::ext_equal]
pub struct MessageModel {
    pub name: Seq<char>,
    pub selector: Seq<u8>,
    pub mutates: bool,
    pub args: Seq<MessageParamModel>,
    pub return_type: ReturnTypeModel,
    pub docs: Seq<Seq<char>>,
}

/// A contract message: name, selector, mutability, arguments, return
/// type and documentation.
pub struct MessageSpec {
    /// The name of the message.
    pub name: String,
    /// The selector hash of the message.
    pub selector: [u8; 4],
    /// If the message is allowed to mutate the contract state.
    pub mutates: bool,
    /// The parameters of the message.
    pub args: Vec<MessageParamSpec>,
    /// The return type of the message.
    pub return_type: ReturnTypeSpec,
    /// The message documentation.
    pub docs: Vec<String>,
}

impl View for MessageSpec {
    type V = MessageModel;

    open spec fn view(&self) -> MessageModel {
        MessageModel {
            name: self.name@,
            selector: self.selector@,
            mutates: self.mutates,
            args: Seq::new(self.args@.len(), |i: int| self.args@[i]@),
            return_type: self.return_type@,
            docs: self.docs.deep_view(),
        }
    }
}

/// Type state for builders telling that some required field has not
/// yet been set.
pub struct Missing<S> {
    /// Marker for the missing field.
    pub marker: PhantomData<S>,
}

/// Type state for the selector of a constructor or message.
pub struct Selector;

/// Type state for the mutability of a message.
pub struct Mutates;

/// Type state for the return type of a message.
pub struct Returns;

/// A builder for messages.  Selector, mutability and return type must
/// all be set before the message can be finished.
pub struct MessageSpecBuilder<S, M, R> {
    /// The specification under construction.
    pub inner: MessageSpec,
    /// Whether the selector has been set.
    pub selector_set: bool,
    /// Whether the mutability flag has been set.
    pub mutates_set: bool,
    /// Whether the return type has been set.
    pub returns_set: bool,
    /// Marker tracking at the type level which required fields are
    /// still missing.
    pub marker: PhantomData<(S, M, R)>,
}

impl MessageSpec {
    /// Creates a new message spec builder.
    pub fn new(name: String) -> (b: MessageSpecBuilder<
        Missing<Selector>,
        Missing<Mutates>,
        Missing<Returns>,
    >)
        ensures
            b.inner.name == name,
            b.inner.args@.len() == 0,
            b.inner.docs@.len() == 0,
            b.inner.return_type.opt_type is None,
            !b.selector_set,
            !b.mutates_set,
            !b.returns_set,
    {
        MessageSpecBuilder {
            inner: MessageSpec {
                name,
                selector: [0u8, 0u8, 0u8, 0u8],
                mutates: false,
                args: Vec::new(),
                return_type: ReturnTypeSpec::new(None),
                docs: Vec::new(),
            },
            selector_set: false,
            mutates_set: false,
            returns_set: false,
            marker: PhantomData,
        }
    }
}

impl<M, R> MessageSpecBuilder<Missing<Selector>, M, R> {
    /// Sets the function selector of the message.
    pub fn selector(self, selector: [u8; 4]) -> (b: MessageSpecBuilder<Selector, M, R>)
        ensures
            b.inner == (MessageSpec { selector, ..self.inner }),
            b.selector_set,
            b.mutates_set == self.mutates_set,
            b.returns_set == self.returns_set,
    {
        MessageSpecBuilder {
            inner: MessageSpec { selector, ..self.inner },
            selector_set: true,
            mutates_set: self.mutates_set,
            returns_set: self.returns_set,
            marker: PhantomData,
        }
    }
}

impl<S, R> MessageSpecBuilder<S, Missing<Mutates>, R> {
    /// Sets whether the message may mutate the contract state.
    pub fn mutates(self, mutates: bool) -> (b: MessageSpecBuilder<S, Mutates, R>)
        ensures
            b.inner == (MessageSpec { mutates, ..self.inner }),
            b.selector_set == self.selector_set,
            b.mutates_set,
            b.returns_set == self.returns_set,
    {
        MessageSpecBuilder {
            inner: MessageSpec { mutates, ..self.inner },
            selector_set: self.selector_set,
            mutates_set: true,
            returns_set: self.returns_set,
            marker: PhantomData,
        }
    }
}

impl<S, M> MessageSpecBuilder<S, M, Missing<Returns>> {
    /// Sets the return type of the message.
    pub fn return_type(self, return_type: ReturnTypeSpec) -> (b: MessageSpecBuilder<S, M, Returns>)
        ensures
            b.inner == (MessageSpec { return_type, ..self.inner }),
            b.selector_set == self.selector_set,
            b.mutates_set == self.mutates_set,
            b.returns_set,
    {
        MessageSpecBuilder {
            inner: MessageSpec { return_type, ..self.inner },
            selector_set: self.selector_set,
            mutates_set: self.mutates_set,
            returns_set: true,
            marker: PhantomData,
        }
    }
}

impl<S, M, R> MessageSpecBuilder<S, M, R> {
    /// Sets the input arguments of the message; they may be set at
    /// most once.
    pub fn args(self, args: Vec<MessageParamSpec>) -> (b: Self)
        requires
            self.inner.args@.len() == 0,
        ensures
            b.inner == (MessageSpec { args, ..self.inner }),
            b.selector_set == self.selector_set,
            b.mutates_set == self.mutates_set,
            b.returns_set == self.returns_set,
    {
        let mut this = self;
        this.inner.args = args;
        this
    }

    /// Sets the documentation of the message; it may be set at most
    /// once.
    pub fn docs(self, docs: Vec<String>) -> (b: Self)
        requires
            self.inner.docs@.len() == 0,
        ensures
            b.inner == (MessageSpec { docs, ..self.inner }),
            b.selector_set == self.selector_set,
            b.mutates_set == self.mutates_set,
            b.returns_set == self.returns_set,
    {
        let mut this = self;
        this.inner.docs = docs;
        this
    }

    /// Finishes construction of the message.  Fails unless selector,
    /// mutability and return type have all been set.
    pub fn done(self) -> (r: Result<MessageSpec, SpecError>)
        ensures
            !self.selector_set ==> r == Err::<MessageSpec, SpecError>(SpecError::MissingSelector),
            self.selector_set && !self.mutates_set ==> r == Err::<MessageSpec, SpecError>(
                SpecError::MissingMutates,
            ),
            self.selector_set && self.mutates_set && !self.returns_set ==> r == Err::<
                MessageSpec,
                SpecError,
            >(SpecError::MissingReturnType),
            self.selector_set && self.mutates_set && self.returns_set ==> r == Ok::<
                MessageSpec,
                SpecError,
            >(self.inner),
    {
        if !self.selector_set {
            Err(SpecError::MissingSelector)
        } else if !self.mutates_set {
            Err(SpecError::MissingMutates)
        } else if !self.returns_set {
            Err(SpecError::MissingReturnType)
        } else {
            Ok(self.inner)
        }
    }
}

/// The mathematical value of an `EventSpec`.
#[verifier::ext_equal]
pub struct EventModel {
    pub name: Seq<char>,
    pub args: Seq<EventParamModel>,
    pub docs: Seq<Seq<char>>,
}

/// An event definition: name, arguments and documentation.
pub struct EventSpec {
    /// The name of the event.
    pub name: String,
    /// The event arguments.
    pub args: Vec<EventParamSpec>,
    /// The event documentation.
    pub docs: Vec<String>,
}

impl View for EventSpec {
    type V = EventModel;

    open spec fn view(&self) -> EventModel {
        EventModel {
            name: self.name@,
            args: Seq::new(self.args@.len(), |i: int| self.args@[i]@),
            docs: self.docs.deep_view(),
        }
    }
}

/// An event specification builder.
pub struct EventSpecBuilder {
    /// The specification under construction.
    pub inner: EventSpec,
}

impl EventSpec {
    /// Creates a new event specification builder.
    pub fn new(name: String) -> (b: EventSpecBuilder)
        ensures
            b.inner.name == name,
            b.inner.args@.len() == 0,
            b.inner.docs@.len() == 0,
    {
        EventSpecBuilder { inner: EventSpec { name, args: Vec::new(), docs: Vec::new() } }
    }
}

impl EventSpecBuilder {
    /// Sets the input arguments of the event; they may be set at most
    /// once.
    pub fn args(self, args: Vec<EventParamSpec>) -> (b: Self)
        requires
            self.inner.args@.len() == 0,
        ensures
            b.inner == (EventSpec { args, ..self.inner }),
    {
        let mut this = self;
        this.inner.args = args;
        this
    }

    /// Sets the documentation of the event; it may be set at most
    /// once.
    pub fn docs(self, docs: Vec<String>) -> (b: Self)
        requires
            self.inner.docs@.len() == 0,
        ensures
            b.inner == (EventSpec { docs, ..self.inner }),
    {
        let mut this = self;
        this.inner.docs = docs;
        this
    }

    /// Finalizes building the event specification.
    pub fn done(self) -> (r: EventSpec)
        ensures
            r == self.inner,
    {
        self.inner
    }
}

/// The mathematical value of a `ContractSpec`.
#[verifier::ext_equal]
pub struct ContractModel {
    pub name: Seq<char>,
    pub constructors: Seq<ConstructorModel>,
    pub messages: Seq<MessageModel>,
    pub events: Seq<EventModel>,
    pub docs: Seq<Seq<char>>,
}

/// A contract: name, constructors, messages, events and
/// documentation.  A finished contract has at least one constructor
/// and at least one message.
pub struct ContractSpec {
    /// The name of the contract.
    pub name: String,
    /// The set of constructors of the contract.
    pub constructors: Vec<ConstructorSpec>,
    /// The external messages of the contract.
    pub messages: Vec<MessageSpec>,
    /// The events of the contract.
    pub events: Vec<EventSpec>,
    /// The contract documentation.
    pub docs: Vec<String>,
}

impl View for ContractSpec {
    type V = ContractModel;

    open spec fn view(&self) -> ContractModel {
        ContractModel {
            name: self.name@,
            constructors: Seq::new(self.constructors@.len(), |i: int| self.constructors@[i]@),
            messages: Seq::new(self.messages@.len(), |i: int| self.messages@[i]@),
            events: Seq::new(self.events@.len(), |i: int| self.events@[i]@),
            docs: self.docs.deep_view(),
        }
    }
}

impl ContractSpec {
    /// A finished contract has a way to be created and a way to be
    /// called.
    pub open spec fn wf(self) -> bool {
        self.constructors@.len() > 0 && self.messages@.len() > 0
    }
}

/// The contract builder is ready to finalize construction.
pub enum Valid {
    /// Phantom marker; never constructed.
    Marker,
}

/// The contract builder is not ready to finalize construction.
pub enum Invalid {
    /// Phantom marker; never constructed.
    Marker,
}

/// A builder for contracts.  Constructors must be supplied before the
/// contract can be finished, and both the constructor and the message
/// list must be non-empty at that point.
pub struct ContractSpecBuilder<S> {
    /// The specification under construction.
    pub inner: ContractSpec,
    /// Marker tracking at the type level whether constructors were
    /// supplied.
    pub marker: PhantomData<S>,
}

impl ContractSpec {
    /// Creates a new contract specification builder.
    pub fn new(name: String) -> (b: ContractSpecBuilder<Invalid>)
        ensures
            b.inner.name == name,
            b.inner.constructors@.len() == 0,
            b.inner.messages@.len() == 0,
            b.inner.events@.len() == 0,
            b.inner.docs@.len() == 0,
    {
        ContractSpecBuilder {
            inner: ContractSpec {
                name,
                constructors: Vec::new(),
                messages: Vec::new(),
                events: Vec::new(),
                docs: Vec::new(),
            },
            marker: PhantomData,
        }
    }
}

impl ContractSpecBuilder<Invalid> {
    /// Sets the constructors of the contract specification.
    pub fn constructors(self, constructors: Vec<ConstructorSpec>) -> (b: ContractSpecBuilder<
        Valid,
    >)
        requires
            self.inner.constructors@.len() == 0,
        ensures
            b.inner == (ContractSpec { constructors, ..self.inner }),
    {
        ContractSpecBuilder {
            inner: ContractSpec { constructors, ..self.inner },
            marker: PhantomData,
        }
    }
}

impl<S> ContractSpecBuilder<S> {
    /// Sets the messages of the contract specification; they may be
    /// set at most once.
    pub fn messages(self, messages: Vec<MessageSpec>) -> (b: Self)
        requires
            self.inner.messages@.len() == 0,
        ensures
            b.inner == (ContractSpec { messages, ..self.inner }),
    {
        let mut this = self;
        this.inner.messages = messages;
        this
    }

    /// Sets the events of the contract specification; they may be set
    /// at most once.
    pub fn events(self, events: Vec<EventSpec>) -> (b: Self)
        requires
            self.inner.events@.len() == 0,
        ensures
            b.inner == (ContractSpec { events, ..self.inner }),
    {
        let mut this = self;
        this.inner.events = events;
        this
    }

    /// Sets the documentation of the contract specification; it may be
    /// set at most once.
    pub fn docs(self, docs: Vec<String>) -> (b: Self)
        requires
            self.inner.docs@.len() == 0,
        ensures
            b.inner == (ContractSpec { docs, ..self.inner }),
    {
        let mut this = self;
        this.inner.docs = docs;
        this
    }
}

impl ContractSpecBuilder<Valid> {
    /// Finalizes construction of the contract specification.  Fails
    /// unless at least one constructor and at least one message were
    /// supplied.
    pub fn done(self) -> (r: Result<ContractSpec, SpecError>)
        ensures
            self.inner.constructors@.len() == 0 ==> r == Err::<ContractSpec, SpecError>(
                SpecError::NoConstructors,
            ),
            self.inner.constructors@.len() > 0 && self.inner.messages@.len() == 0 ==> r == Err::<
                ContractSpec,
                SpecError,
            >(SpecError::NoMessages),
            self.inner.constructors@.len() > 0 && self.inner.messages@.len() > 0 ==> r == Ok::<
                ContractSpec,
                SpecError,
            >(self.inner),
            r matches Ok(c) ==> c.wf(),
    {
        if self.inner.constructors.len() == 0 {
            Err(SpecError::NoConstructors)
        } else if self.inner.messages.len() == 0 {
            Err(SpecError::NoMessages)
        } else {
            Ok(self.inner)
        }
    }
}

} // verus!
