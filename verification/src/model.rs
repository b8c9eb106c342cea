//! The structural model of the declarations that the transformation reads and
//! emits: access scopes, type paths, data types, implementation-block items,
//! and the diagnostics and errors the transformation can report.

use vstd::prelude::*;

verus! {

// ---------------------------------------------------------------------------
// Access scopes
// ---------------------------------------------------------------------------

/// An access scope on a declaration or an item.
#[derive(Clone, Debug, PartialEq, Eq)]
pub enum Vis {
    /// Unrestricted visibility.
    Public,
    /// No explicit scope: private to the enclosing namespace.
    Inherited,
    /// Visibility restricted to a named scope; the scope path is kept as its
    /// ordered segments (for example `self`, `super`, `crate`, or a longer
    /// path).
    Restricted(Vec<String>),
}

/// The mathematical value of an access scope.
#[verifier::ext_equal]
pub ghost enum VisV {
    Public,
    Inherited,
    Restricted(Seq<Seq<char>>),
}

impl View for Vis {
    type V = VisV;

    open spec fn view(&self) -> VisV {
        match self {
            Vis::Public => VisV::Public,
            Vis::Inherited => VisV::Inherited,
            Vis::Restricted(p) => VisV::Restricted(p.deep_view()),
        }
    }
}

impl DeepView for Vis {
    type V = VisV;

    open spec fn deep_view(&self) -> VisV {
        self.view()
    }
}

/// A restricted scope must name at least one path segment.
pub open spec fn vis_wf(v: VisV) -> bool {
    match v {
        VisV::Restricted(p) => p.len() > 0,
        _ => true,
    }
}

// ---------------------------------------------------------------------------
// Type paths
// ---------------------------------------------------------------------------

/// One segment of a type path: an identifier and its generic arguments,
/// carried as opaque argument texts.
#[derive(Clone, Debug, PartialEq, Eq)]
pub struct PathSeg {
    pub ident: String,
    pub args: Vec<String>,
}

/// The mathematical value of a path segment.
#[verifier::ext_equal]
pub ghost struct PathSegV {
    pub ident: Seq<char>,
    pub args: Seq<Seq<char>>,
}

impl View for PathSeg {
    type V = PathSegV;

    open spec fn view(&self) -> PathSegV {
        PathSegV { ident: self.ident@, args: self.args.deep_view() }
    }
}

impl DeepView for PathSeg {
    type V = PathSegV;

    open spec fn deep_view(&self) -> PathSegV {
        self.view()
    }
}

/// A plain type path: an ordered, non-empty sequence of segments.
#[derive(Clone, Debug, PartialEq, Eq)]
pub struct TypePath {
    pub segs: Vec<PathSeg>,
}

impl View for TypePath {
    type V = Seq<PathSegV>;

    open spec fn view(&self) -> Seq<PathSegV> {
        self.segs.deep_view()
    }
}

impl DeepView for TypePath {
    type V = Seq<PathSegV>;

    open spec fn deep_view(&self) -> Seq<PathSegV> {
        self.view()
    }
}

/// A type path must have at least one segment.
pub open spec fn path_wf(p: Seq<PathSegV>) -> bool {
    p.len() > 0
}

/// A type in implementation-target or return position: either a plain type
/// path, or some other type shape (tuple, reference, and so on) carried as
/// opaque text.
#[derive(Clone, Debug, PartialEq, Eq)]
pub enum TargetType {
    Path(TypePath),
    Other(String),
}

/// The mathematical value of a target type.
#[verifier::ext_equal]
pub ghost enum TargetTypeV {
    Path(Seq<PathSegV>),
    Other(Seq<char>),
}

impl View for TargetType {
    type V = TargetTypeV;

    open spec fn view(&self) -> TargetTypeV {
        match self {
            TargetType::Path(p) => TargetTypeV::Path(p.deep_view()),
            TargetType::Other(t) => TargetTypeV::Other(t@),
        }
    }
}

impl DeepView for TargetType {
    type V = TargetTypeV;

    open spec fn deep_view(&self) -> TargetTypeV {
        self.view()
    }
}

/// A target type is well formed when a path target has at least one segment.
pub open spec fn target_wf(t: TargetTypeV) -> bool {
    match t {
        TargetTypeV::Path(p) => path_wf(p),
        TargetTypeV::Other(_) => true,
    }
}

// ---------------------------------------------------------------------------
// Data types
// ---------------------------------------------------------------------------

/// One field of a data type: name, access scope, and the field type carried
/// as opaque text.
#[derive(Clone, Debug, PartialEq, Eq)]
pub struct Field {
    pub name: String,
    pub vis: Vis,
    pub ty: String,
}

/// The mathematical value of a field.
#[verifier::ext_equal]
pub ghost struct FieldV {
    pub name: Seq<char>,
    pub vis: VisV,
    pub ty: Seq<char>,
}

impl View for Field {
    type V = FieldV;

    open spec fn view(&self) -> FieldV {
        FieldV { name: self.name@, vis: self.vis@, ty: self.ty@ }
    }
}

impl DeepView for Field {
    type V = FieldV;

    open spec fn deep_view(&self) -> FieldV {
        self.view()
    }
}

/// A data-type declaration: leading attributes, access scope, name, generic
/// parameters (opaque texts), and the ordered fields.
#[derive(Clone, Debug, PartialEq, Eq)]
pub struct DataType {
    pub attrs: Vec<String>,
    pub vis: Vis,
    pub name: String,
    pub generics: Vec<String>,
    pub fields: Vec<Field>,
}

/// A data type is well formed when its own scope and every field scope are.
pub open spec fn data_type_wf(s: DataType) -> bool {
    &&& vis_wf(s.vis@)
    &&& forall|i: int| 0 <= i < s.fields@.len() ==> vis_wf(#[trigger] s.fields@[i]@.vis)
}

// ---------------------------------------------------------------------------
// Implementation-block items
// ---------------------------------------------------------------------------

/// The receiver of a method.
#[derive(Clone, Copy, Debug, PartialEq, Eq)]
pub enum Receiver {
    /// `self` by value.
    Owned,
    /// `&self`.
    Shared,
    /// `&mut self`.
    Exclusive,
    /// No receiver: an associated function.
    Static,
}

/// One parameter of a method (the receiver excluded): a name and the
/// parameter type as opaque text.
#[derive(Clone, Debug, PartialEq, Eq)]
pub struct Param {
    pub name: String,
    pub ty: String,
}

/// The mathematical value of a parameter.
#[verifier::ext_equal]
pub ghost struct ParamV {
    pub name: Seq<char>,
    pub ty: Seq<char>,
}

impl View for Param {
    type V = ParamV;

    open spec fn view(&self) -> ParamV {
        ParamV { name: self.name@, ty: self.ty@ }
    }
}

impl DeepView for Param {
    type V = ParamV;

    open spec fn deep_view(&self) -> ParamV {
        self.view()
    }
}

/// The body of a method: either the declared body carried as opaque text, or
/// a generated forwarding body that packages the arguments into a message
/// tagged with the method's identity, dispatches it through the mailbox
/// address, and awaits the outcome (the original return value on success, a
/// disconnection error if the actor is unreachable).
#[derive(Clone, Debug, PartialEq, Eq)]
pub enum MethodBody {
    Direct(String),
    Forward { message: String, args: Vec<String> },
}

/// The mathematical value of a method body.
#[verifier::ext_equal]
pub ghost enum MethodBodyV {
    Direct(Seq<char>),
    Forward { message: Seq<char>, args: Seq<Seq<char>> },
}

impl View for MethodBody {
    type V = MethodBodyV;

    open spec fn view(&self) -> MethodBodyV {
        match self {
            MethodBody::Direct(t) => MethodBodyV::Direct(t@),
            MethodBody::Forward { message, args } => MethodBodyV::Forward {
                message: message@,
                args: args.deep_view(),
            },
        }
    }
}

impl DeepView for MethodBody {
    type V = MethodBodyV;

    open spec fn deep_view(&self) -> MethodBodyV {
        self.view()
    }
}

/// A method of an implementation block. The return type is carried as opaque
/// text; `None` means the method returns nothing.
#[derive(Clone, Debug, PartialEq, Eq)]
pub struct MethodItem {
    pub vis: Vis,
    pub name: String,
    pub receiver: Receiver,
    pub params: Vec<Param>,
    pub ret: Option<String>,
    pub body: MethodBody,
}

/// The mathematical value of a method.
#[verifier::ext_equal]
pub ghost struct MethodItemV {
    pub vis: VisV,
    pub name: Seq<char>,
    pub receiver: Receiver,
    pub params: Seq<ParamV>,
    pub ret: Option<Seq<char>>,
    pub body: MethodBodyV,
}

impl View for MethodItem {
    type V = MethodItemV;

    open spec fn view(&self) -> MethodItemV {
        MethodItemV {
            vis: self.vis@,
            name: self.name@,
            receiver: self.receiver,
            params: self.params.deep_view(),
            ret: match self.ret {
                Some(t) => Some(t@),
                None => None,
            },
            body: self.body@,
        }
    }
}

impl DeepView for MethodItem {
    type V = MethodItemV;

    open spec fn deep_view(&self) -> MethodItemV {
        self.view()
    }
}

/// One item of an implementation block.
#[derive(Clone, Debug, PartialEq, Eq)]
pub enum ImplItem {
    /// An associated constant: scope, name, and the rest as opaque text.
    ConstItem { vis: Vis, name: String, text: String },
    /// An associated type: scope, name, and the rest as opaque text.
    TypeAlias { vis: Vis, name: String, text: String },
    /// A macro invocation item, as opaque text.
    MacroItem(String),
    /// A verbatim item, as opaque text.
    Verbatim(String),
    /// A method.
    Method(MethodItem),
    /// An item shape outside the designed grammar subset, as opaque text.
    Unknown(String),
}

/// The mathematical value of an implementation-block item.
#[verifier::ext_equal]
pub ghost enum ImplItemV {
    ConstItem { vis: VisV, name: Seq<char>, text: Seq<char> },
    TypeAlias { vis: VisV, name: Seq<char>, text: Seq<char> },
    MacroItem(Seq<char>),
    Verbatim(Seq<char>),
    Method(MethodItemV),
    Unknown(Seq<char>),
}

impl View for ImplItem {
    type V = ImplItemV;

    open spec fn view(&self) -> ImplItemV {
        match self {
            ImplItem::ConstItem { vis, name, text } => ImplItemV::ConstItem {
                vis: vis@,
                name: name@,
                text: text@,
            },
            ImplItem::TypeAlias { vis, name, text } => ImplItemV::TypeAlias {
                vis: vis@,
                name: name@,
                text: text@,
            },
            ImplItem::MacroItem(t) => ImplItemV::MacroItem(t@),
            ImplItem::Verbatim(t) => ImplItemV::Verbatim(t@),
            ImplItem::Method(m) => ImplItemV::Method(m@),
            ImplItem::Unknown(t) => ImplItemV::Unknown(t@),
        }
    }
}

impl DeepView for ImplItem {
    type V = ImplItemV;

    open spec fn deep_view(&self) -> ImplItemV {
        self.view()
    }
}

/// The scope an implementation-block item declares, where it has one.
pub open spec fn item_vis(it: ImplItemV) -> Option<VisV> {
    match it {
        ImplItemV::ConstItem { vis, .. } => Some(vis),
        ImplItemV::TypeAlias { vis, .. } => Some(vis),
        ImplItemV::Method(m) => Some(m.vis),
        _ => None,
    }
}

/// An item is well formed when its declared scope, if any, is.
pub open spec fn item_wf(it: ImplItemV) -> bool {
    match item_vis(it) {
        Some(v) => vis_wf(v),
        None => true,
    }
}

// ---------------------------------------------------------------------------
// Implementation blocks and the source construct
// ---------------------------------------------------------------------------

/// A plain (non-interface) implementation block on a target type.
#[derive(Clone, Debug, PartialEq, Eq)]
pub struct HandlerImplBlock {
    pub generics: Vec<String>,
    pub self_ty: TargetType,
    pub items: Vec<ImplItem>,
}

/// A handler block is well formed when its target and every item are.
pub open spec fn handler_block_wf(b: HandlerImplBlock) -> bool {
    &&& target_wf(b.self_ty@)
    &&& forall|i: int| 0 <= i < b.items@.len() ==> item_wf(#[trigger] b.items@[i]@)
}

/// An implementation block that satisfies an external interface/protocol.
#[derive(Clone, Debug, PartialEq, Eq)]
pub struct InterfaceImplBlock {
    pub generics: Vec<String>,
    pub trait_path: TypePath,
    pub self_ty: TargetType,
    pub items: Vec<ImplItem>,
}

/// An interface block is well formed when its target and interface paths are.
pub open spec fn interface_block_wf(b: InterfaceImplBlock) -> bool {
    &&& target_wf(b.self_ty@)
    &&& path_wf(b.trait_path@)
}

/// One parsed input construct; exactly one is transformed per invocation.
#[derive(Clone, Debug, PartialEq, Eq)]
pub enum SourceConstruct {
    Data(DataType),
    Handlers(HandlerImplBlock),
    Interface(InterfaceImplBlock),
}

/// A construct is well formed when its payload is.
pub open spec fn construct_wf(c: SourceConstruct) -> bool {
    match c {
        SourceConstruct::Data(d) => data_type_wf(d),
        SourceConstruct::Handlers(b) => handler_block_wf(b),
        SourceConstruct::Interface(b) => interface_block_wf(b),
    }
}

// ---------------------------------------------------------------------------
// Diagnostics and errors
// ---------------------------------------------------------------------------

/// A non-fatal diagnostic collected during a transformation.
#[derive(Clone, Debug, PartialEq, Eq)]
pub enum Diagnostic {
    /// A restricted scope that the normalizer cannot map precisely was
    /// widened; the offending scope path is carried.
    UnsupportedVisibility(Vec<String>),
}

/// The mathematical value of a diagnostic.
#[verifier::ext_equal]
pub ghost enum DiagnosticV {
    UnsupportedVisibility(Seq<Seq<char>>),
}

impl View for Diagnostic {
    type V = DiagnosticV;

    open spec fn view(&self) -> DiagnosticV {
        match self {
            Diagnostic::UnsupportedVisibility(p) => DiagnosticV::UnsupportedVisibility(
                p.deep_view(),
            ),
        }
    }
}

impl DeepView for Diagnostic {
    type V = DiagnosticV;

    open spec fn deep_view(&self) -> DiagnosticV {
        self.view()
    }
}

/// An error that aborts the transformation of one construct. The offending
/// construct's text is carried for the caller's diagnostics channel.
#[derive(Clone, Debug, PartialEq, Eq)]
pub enum TransformError {
    /// The implementation target is not a plain type path (user error).
    BadImplTarget(String),
    /// A handler return type is not a plain type path (user error).
    BadReturnType(String),
    /// An item shape the transformer was never designed to accept
    /// (internal, unrecoverable error).
    UnknownImplItem(String),
}

/// The mathematical value of a transformation error.
#[verifier::ext_equal]
pub ghost enum TransformErrorV {
    BadImplTarget(Seq<char>),
    BadReturnType(Seq<char>),
    UnknownImplItem(Seq<char>),
}

impl View for TransformError {
    type V = TransformErrorV;

    open spec fn view(&self) -> TransformErrorV {
        match self {
            TransformError::BadImplTarget(t) => TransformErrorV::BadImplTarget(t@),
            TransformError::BadReturnType(t) => TransformErrorV::BadReturnType(t@),
            TransformError::UnknownImplItem(t) => TransformErrorV::UnknownImplItem(t@),
        }
    }
}

impl DeepView for TransformError {
    type V = TransformErrorV;

    open spec fn deep_view(&self) -> TransformErrorV {
        self.view()
    }
}

} // verus!
