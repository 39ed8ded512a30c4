//! The entity model: every documented thing (compound, class, function,
//! variable, macro, enum, enum value), the shared comment structure, the
//! registry that owns all entities, and the error taxonomy of the ingestion
//! engine.

use vstd::prelude::*;

use crate::idmap::IdMap;

verus! {

/// Stable reference identifier; the sole cross-referencing mechanism.
pub type RefID = String;

/// A fatal ingestion failure: the input violates the assumed schema or
/// references an identifier that was never declared.
#[derive(Debug, Clone, Copy, PartialEq, Eq, Structural)]
pub enum IngestError {
    /// A required attribute is absent.
    MissingAttribute,
    /// A required child element is absent.
    MissingChild,
    /// A compound kind outside the closed enumeration.
    UnknownCompoundKind,
    /// A member kind outside the closed enumeration.
    UnknownMemberKind,
    /// An access level outside {private, protected, public}.
    UnknownAccessModifier,
    /// An identifier declared twice.
    DuplicateIdentifier,
    /// An identifier that was never declared.
    UnknownIdentifier,
    /// A second parameter list of a kind whose mapping is already populated:
    /// the upstream format does not repeat parameter-list kinds within one
    /// comment.
    DuplicateParameterList,
}

/// Access level of a member.
#[derive(Debug, Clone, Copy, PartialEq, Eq, Structural)]
pub enum AccessModifier {
    PRIVATE,
    PROTECTED,
    PUBLIC,
}

/// The access level denoted by `s`, or an error outside the closed set.
pub open spec fn access_from(s: Seq<char>) -> Result<AccessModifier, IngestError> {
    if s == "private"@ {
        Ok(AccessModifier::PRIVATE)
    } else if s == "protected"@ {
        Ok(AccessModifier::PROTECTED)
    } else if s == "public"@ {
        Ok(AccessModifier::PUBLIC)
    } else {
        Err(IngestError::UnknownAccessModifier)
    }
}

/// The textual name of an access level.
pub open spec fn access_text(a: AccessModifier) -> Seq<char> {
    match a {
        AccessModifier::PRIVATE => "private"@,
        AccessModifier::PROTECTED => "protected"@,
        AccessModifier::PUBLIC => "public"@,
    }
}

impl AccessModifier {
    /// Parses an access level from its textual form.
    pub fn from_str(s: &str) -> (r: Result<AccessModifier, IngestError>)
        ensures
            r == access_from(s@),
    {
        if crate::text::str_eq(s, "private") {
            Ok(AccessModifier::PRIVATE)
        } else if crate::text::str_eq(s, "protected") {
            Ok(AccessModifier::PROTECTED)
        } else if crate::text::str_eq(s, "public") {
            Ok(AccessModifier::PUBLIC)
        } else {
            Err(IngestError::UnknownAccessModifier)
        }
    }

    /// The textual name of this access level.
    pub fn as_text(&self) -> (r: &'static str)
        ensures
            r@ == access_text(*self),
    {
        match self {
            AccessModifier::PRIVATE => "private",
            AccessModifier::PROTECTED => "protected",
            AccessModifier::PUBLIC => "public",
        }
    }
}

/// Kind of a documentable container.
#[derive(Debug, Clone, Copy, PartialEq, Eq, Structural)]
pub enum CompoundKind {
    UNKNOWN,
    FILE,
    DIRECTORY,
    NAMESPACE,
    CLASS,
    STRUCT,
    INTERFACE,
    CONCEPT,
    PAGE,
    GROUP,
}

/// The compound kind denoted by `s`, or an error outside the closed set.
pub open spec fn compound_kind_from(s: Seq<char>) -> Result<CompoundKind, IngestError> {
    if s == "file"@ {
        Ok(CompoundKind::FILE)
    } else if s == "dir"@ {
        Ok(CompoundKind::DIRECTORY)
    } else if s == "namespace"@ {
        Ok(CompoundKind::NAMESPACE)
    } else if s == "class"@ {
        Ok(CompoundKind::CLASS)
    } else if s == "struct"@ {
        Ok(CompoundKind::STRUCT)
    } else if s == "interface"@ {
        Ok(CompoundKind::INTERFACE)
    } else if s == "concept"@ {
        Ok(CompoundKind::CONCEPT)
    } else if s == "page"@ {
        Ok(CompoundKind::PAGE)
    } else if s == "group"@ {
        Ok(CompoundKind::GROUP)
    } else {
        Err(IngestError::UnknownCompoundKind)
    }
}

impl CompoundKind {
    /// Parses a compound kind from its textual form.
    pub fn from_str(s: &str) -> (r: Result<CompoundKind, IngestError>)
        ensures
            r == compound_kind_from(s@),
    {
        if crate::text::str_eq(s, "file") {
            Ok(CompoundKind::FILE)
        } else if crate::text::str_eq(s, "dir") {
            Ok(CompoundKind::DIRECTORY)
        } else if crate::text::str_eq(s, "namespace") {
            Ok(CompoundKind::NAMESPACE)
        } else if crate::text::str_eq(s, "class") {
            Ok(CompoundKind::CLASS)
        } else if crate::text::str_eq(s, "struct") {
            Ok(CompoundKind::STRUCT)
        } else if crate::text::str_eq(s, "interface") {
            Ok(CompoundKind::INTERFACE)
        } else if crate::text::str_eq(s, "concept") {
            Ok(CompoundKind::CONCEPT)
        } else if crate::text::str_eq(s, "page") {
            Ok(CompoundKind::PAGE)
        } else if crate::text::str_eq(s, "group") {
            Ok(CompoundKind::GROUP)
        } else {
            Err(IngestError::UnknownCompoundKind)
        }
    }
}

/// Mathematical value of a `Comment`.
#[verifier::ext_equal]
pub ghost struct CommentView {
    pub brief: Seq<Seq<char>>,
    pub details: Seq<Seq<char>>,
    pub parameters: Map<Seq<char>, Seq<char>>,
    pub template_parameters: Map<Seq<char>, Seq<char>>,
    pub returns: Seq<char>,
    pub pre_conditions: Seq<Seq<char>>,
    pub post_conditions: Seq<Seq<char>>,
    pub exceptions: Map<Seq<char>, Seq<char>>,
    pub see_also: Seq<Seq<char>>,
    pub notes: Seq<Seq<char>>,
    pub warnings: Seq<Seq<char>>,
}

/// The comment with every section empty.
pub open spec fn comment_empty() -> CommentView {
    CommentView {
        brief: Seq::empty(),
        details: Seq::empty(),
        parameters: Map::empty(),
        template_parameters: Map::empty(),
        returns: Seq::empty(),
        pre_conditions: Seq::empty(),
        post_conditions: Seq::empty(),
        exceptions: Map::empty(),
        see_also: Seq::empty(),
        notes: Seq::empty(),
        warnings: Seq::empty(),
    }
}

/// Documentation attached to an entity, flattened into sections.
pub struct Comment {
    pub brief: Vec<String>,
    pub details: Vec<String>,
    pub parameters: IdMap<String>,
    pub template_parameters: IdMap<String>,
    pub returns: String,
    pub pre_conditions: Vec<String>,
    pub post_conditions: Vec<String>,
    pub exceptions: IdMap<String>,
    pub see_also: Vec<String>,
    pub notes: Vec<String>,
    pub warnings: Vec<String>,
}

impl View for Comment {
    type V = CommentView;

    open spec fn view(&self) -> CommentView {
        CommentView {
            brief: self.brief.deep_view(),
            details: self.details.deep_view(),
            parameters: self.parameters@,
            template_parameters: self.template_parameters@,
            returns: self.returns@,
            pre_conditions: self.pre_conditions.deep_view(),
            post_conditions: self.post_conditions.deep_view(),
            exceptions: self.exceptions@,
            see_also: self.see_also.deep_view(),
            notes: self.notes.deep_view(),
            warnings: self.warnings.deep_view(),
        }
    }
}

impl Comment {
    /// The name-to-description maps have distinct keys.
    pub open spec fn wf(&self) -> bool {
        self.parameters.wf() && self.template_parameters.wf() && self.exceptions.wf()
    }

    /// An empty comment.
    pub fn new() -> (r: Comment)
        ensures
            r.wf(),
            r@ == comment_empty(),
    {
        let r = Comment {
            brief: Vec::new(),
            details: Vec::new(),
            parameters: IdMap::new(),
            template_parameters: IdMap::new(),
            returns: String::new(),
            pre_conditions: Vec::new(),
            post_conditions: Vec::new(),
            exceptions: IdMap::new(),
            see_also: Vec::new(),
            notes: Vec::new(),
            warnings: Vec::new(),
        };
        proof {
            assert(r.brief.deep_view() =~= Seq::<Seq<char>>::empty());
            assert(r.details.deep_view() =~= Seq::<Seq<char>>::empty());
            assert(r.pre_conditions.deep_view() =~= Seq::<Seq<char>>::empty());
            assert(r.post_conditions.deep_view() =~= Seq::<Seq<char>>::empty());
            assert(r.see_also.deep_view() =~= Seq::<Seq<char>>::empty());
            assert(r.notes.deep_view() =~= Seq::<Seq<char>>::empty());
            assert(r.warnings.deep_view() =~= Seq::<Seq<char>>::empty());
        }
        r
    }
}

/// Mathematical value of a `Variable`.
#[verifier::ext_equal]
pub ghost struct VariableView {
    pub name: Seq<char>,
    pub qualified_name: Seq<char>,
    pub definition: Seq<char>,
    pub access: AccessModifier,
    pub docs: CommentView,
    pub is_static: bool,
    pub is_constexpr: bool,
    pub is_mutable: bool,
}

/// The default variable entity allocated by the declaration pass.
pub open spec fn variable_default() -> VariableView {
    VariableView {
        name: "?"@,
        qualified_name: "?"@,
        definition: "?"@,
        access: AccessModifier::PRIVATE,
        docs: comment_empty(),
        is_static: false,
        is_constexpr: false,
        is_mutable: false,
    }
}

/// A documented variable or data member.
pub struct Variable {
    pub name: String,
    pub qualified_name: String,
    pub definition: String,
    pub access: AccessModifier,
    pub docs: Comment,
    pub is_static: bool,
    pub is_constexpr: bool,
    pub is_mutable: bool,
}

impl View for Variable {
    type V = VariableView;

    open spec fn view(&self) -> VariableView {
        VariableView {
            name: self.name@,
            qualified_name: self.qualified_name@,
            definition: self.definition@,
            access: self.access,
            docs: self.docs@,
            is_static: self.is_static,
            is_constexpr: self.is_constexpr,
            is_mutable: self.is_mutable,
        }
    }
}

impl Variable {
    pub open spec fn wf(&self) -> bool {
        self.docs.wf()
    }

    /// A default variable entity.
    pub fn new() -> (r: Variable)
        ensures
            r.wf(),
            r@ == variable_default(),
    {
        Variable {
            name: "?".to_owned(),
            qualified_name: "?".to_owned(),
            definition: "?".to_owned(),
            access: AccessModifier::PRIVATE,
            docs: Comment::new(),
            is_static: false,
            is_constexpr: false,
            is_mutable: false,
        }
    }
}

/// Mathematical value of a `Function`.
#[verifier::ext_equal]
pub ghost struct FunctionView {
    pub name: Seq<char>,
    pub qualified_name: Seq<char>,
    pub return_type: Seq<char>,
    pub args: Seq<char>,
    pub parameter_names: Seq<Seq<char>>,
    pub template_args: Seq<Seq<char>>,
    pub definition: Seq<char>,
    pub access: AccessModifier,
    pub docs: CommentView,
    pub is_static: bool,
    pub is_const: bool,
    pub is_inline: bool,
    pub is_noexcept: bool,
    pub is_virtual: bool,
    pub is_explicit: bool,
    pub is_member: bool,
}

/// The default function entity allocated by the declaration pass.
pub open spec fn function_default(is_member: bool) -> FunctionView {
    FunctionView {
        name: Seq::empty(),
        qualified_name: Seq::empty(),
        return_type: Seq::empty(),
        args: Seq::empty(),
        parameter_names: Seq::empty(),
        template_args: Seq::empty(),
        definition: Seq::empty(),
        access: AccessModifier::PRIVATE,
        docs: comment_empty(),
        is_static: false,
        is_const: false,
        is_inline: false,
        is_noexcept: false,
        is_virtual: false,
        is_explicit: false,
        is_member,
    }
}

/// A documented function, free or member.
pub struct Function {
    pub name: String,
    pub qualified_name: String,
    pub return_type: String,
    pub args: String,
    pub parameter_names: Vec<String>,
    pub template_args: Vec<String>,
    pub definition: String,
    pub access: AccessModifier,
    pub docs: Comment,
    pub is_static: bool,
    pub is_const: bool,
    pub is_inline: bool,
    pub is_noexcept: bool,
    pub is_virtual: bool,
    pub is_explicit: bool,
    pub is_member: bool,
}

impl View for Function {
    type V = FunctionView;

    open spec fn view(&self) -> FunctionView {
        FunctionView {
            name: self.name@,
            qualified_name: self.qualified_name@,
            return_type: self.return_type@,
            args: self.args@,
            parameter_names: self.parameter_names.deep_view(),
            template_args: self.template_args.deep_view(),
            definition: self.definition@,
            access: self.access,
            docs: self.docs@,
            is_static: self.is_static,
            is_const: self.is_const,
            is_inline: self.is_inline,
            is_noexcept: self.is_noexcept,
            is_virtual: self.is_virtual,
            is_explicit: self.is_explicit,
            is_member: self.is_member,
        }
    }
}

impl Function {
    pub open spec fn wf(&self) -> bool {
        self.docs.wf()
    }

    /// A default function entity; membership is fixed at declaration time.
    pub fn new(is_member: bool) -> (r: Function)
        ensures
            r.wf(),
            r@ == function_default(is_member),
    {
        let r = Function {
            name: String::new(),
            qualified_name: String::new(),
            return_type: String::new(),
            args: String::new(),
            parameter_names: Vec::new(),
            template_args: Vec::new(),
            definition: String::new(),
            access: AccessModifier::PRIVATE,
            docs: Comment::new(),
            is_static: false,
            is_const: false,
            is_inline: false,
            is_noexcept: false,
            is_virtual: false,
            is_explicit: false,
            is_member,
        };
        proof {
            assert(r.parameter_names.deep_view() =~= Seq::<Seq<char>>::empty());
            assert(r.template_args.deep_view() =~= Seq::<Seq<char>>::empty());
        }
        r
    }
}

/// The three container variants a class entity can have.
#[derive(Debug, Clone, Copy, PartialEq, Eq, Structural)]
pub enum ClassVariant {
    CLASS,
    STRUCT,
    INTERFACE,
}

/// Mathematical value of a `Class`.
#[verifier::ext_equal]
pub ghost struct ClassView {
    pub unqualified_name: Seq<char>,
    pub template_args: Seq<Seq<char>>,
    pub variant: ClassVariant,
}

/// The default class entity allocated by the declaration pass.
pub open spec fn class_default(variant: ClassVariant) -> ClassView {
    ClassView { unqualified_name: "?"@, template_args: Seq::empty(), variant }
}

/// Refinement of a class-kind compound: exactly one of class, struct or
/// interface.
pub struct Class {
    pub unqualified_name: String,
    pub template_args: Vec<String>,
    pub variant: ClassVariant,
}

impl View for Class {
    type V = ClassView;

    open spec fn view(&self) -> ClassView {
        ClassView {
            unqualified_name: self.unqualified_name@,
            template_args: self.template_args.deep_view(),
            variant: self.variant,
        }
    }
}

impl Class {
    /// A default class or struct entity.
    pub fn new(is_struct: bool) -> (r: Class)
        ensures
            r@ == class_default(
                if is_struct {
                    ClassVariant::STRUCT
                } else {
                    ClassVariant::CLASS
                },
            ),
    {
        let r = Class {
            unqualified_name: "?".to_owned(),
            template_args: Vec::new(),
            variant: if is_struct {
                ClassVariant::STRUCT
            } else {
                ClassVariant::CLASS
            },
        };
        proof {
            assert(r.template_args.deep_view() =~= Seq::<Seq<char>>::empty());
        }
        r
    }

    /// A default interface entity.
    pub fn new_interface() -> (r: Class)
        ensures
            r@ == class_default(ClassVariant::INTERFACE),
    {
        let r = Class {
            unqualified_name: "?".to_owned(),
            template_args: Vec::new(),
            variant: ClassVariant::INTERFACE,
        };
        proof {
            assert(r.template_args.deep_view() =~= Seq::<Seq<char>>::empty());
        }
        r
    }

    /// Whether this entity documents a struct.
    pub fn is_struct(&self) -> (r: bool)
        ensures
            r == (self.variant == ClassVariant::STRUCT),
    {
        match self.variant {
            ClassVariant::STRUCT => true,
            _ => false,
        }
    }
}

/// Mathematical value of a `Define`.
#[verifier::ext_equal]
pub ghost struct DefineView {
    pub name: Seq<char>,
}

/// The default macro entity allocated by the declaration pass.
pub open spec fn define_default() -> DefineView {
    DefineView { name: "?"@ }
}

/// A documented preprocessor macro; only its name is tracked.
pub struct Define {
    pub name: String,
}

impl View for Define {
    type V = DefineView;

    open spec fn view(&self) -> DefineView {
        DefineView { name: self.name@ }
    }
}

impl Define {
    /// A default macro entity.
    pub fn new() -> (r: Define)
        ensures
            r@ == define_default(),
    {
        Define { name: "?".to_owned() }
    }
}

/// Mathematical value of an `EnumValue`.
#[verifier::ext_equal]
pub ghost struct EnumValueView {
    pub name: Seq<char>,
    pub initializer: Seq<char>,
    pub docs: CommentView,
}

/// The default enum-value entity.
pub open spec fn enum_value_default() -> EnumValueView {
    EnumValueView { name: "?"@, initializer: Seq::empty(), docs: comment_empty() }
}

/// One enumerator: name, optional initializer text and its own comment.
pub struct EnumValue {
    pub name: String,
    pub initializer: String,
    pub docs: Comment,
}

impl View for EnumValue {
    type V = EnumValueView;

    open spec fn view(&self) -> EnumValueView {
        EnumValueView { name: self.name@, initializer: self.initializer@, docs: self.docs@ }
    }
}

impl EnumValue {
    pub open spec fn wf(&self) -> bool {
        self.docs.wf()
    }

    /// A default enum-value entity.
    pub fn new() -> (r: EnumValue)
        ensures
            r.wf(),
            r@ == enum_value_default(),
    {
        EnumValue { name: "?".to_owned(), initializer: String::new(), docs: Comment::new() }
    }
}

/// Mathematical value of an `Enum`.
#[verifier::ext_equal]
pub ghost struct EnumView {
    pub name: Seq<char>,
    pub qualified_name: Seq<char>,
    pub is_scoped: bool,
    pub docs: CommentView,
    pub values: Seq<EnumValueView>,
}

/// The default enum entity allocated by the declaration pass.
pub open spec fn enum_default() -> EnumView {
    EnumView {
        name: "?"@,
        qualified_name: "?"@,
        is_scoped: false,
        docs: comment_empty(),
        values: Seq::empty(),
    }
}

/// A documented enumeration with its ordered values.
pub struct Enum {
    pub name: String,
    pub qualified_name: String,
    pub is_scoped: bool,
    pub docs: Comment,
    pub values: Vec<EnumValue>,
}

impl View for Enum {
    type V = EnumView;

    open spec fn view(&self) -> EnumView {
        EnumView {
            name: self.name@,
            qualified_name: self.qualified_name@,
            is_scoped: self.is_scoped,
            docs: self.docs@,
            values: self.values@.map_values(|v: EnumValue| v@),
        }
    }
}

impl Enum {
    pub open spec fn wf(&self) -> bool {
        self.docs.wf() && forall|i: int| 0 <= i < self.values@.len() ==> self.values@[i].wf()
    }

    /// A default enum entity.
    pub fn new() -> (r: Enum)
        ensures
            r.wf(),
            r@ == enum_default(),
    {
        let r = Enum {
            name: "?".to_owned(),
            qualified_name: "?".to_owned(),
            is_scoped: false,
            docs: Comment::new(),
            values: Vec::new(),
        };
        proof {
            assert(r.values@.map_values(|v: EnumValue| v@) =~= Seq::<EnumValueView>::empty());
        }
        r
    }
}

/// Mathematical value of a `Compound`.
#[verifier::ext_equal]
pub ghost struct CompoundView {
    pub name: Seq<char>,
    pub title: Seq<char>,
    pub kind: CompoundKind,
    pub groups: Seq<Seq<char>>,
    pub namespaces: Seq<Seq<char>>,
    pub classes: Seq<Seq<char>>,
    pub enums: Seq<Seq<char>>,
    pub enum_values: Seq<Seq<char>>,
    pub functions: Seq<Seq<char>>,
    pub variables: Seq<Seq<char>>,
    pub defines: Seq<Seq<char>>,
    pub docs: CommentView,
}

/// The compound allocated for a declaration: the given name and kind, every
/// other attribute default.
pub open spec fn compound_declared(name: Seq<char>, kind: CompoundKind) -> CompoundView {
    CompoundView {
        name: name,
        title: "?"@,
        kind: kind,
        groups: Seq::empty(),
        namespaces: Seq::empty(),
        classes: Seq::empty(),
        enums: Seq::empty(),
        enum_values: Seq::empty(),
        functions: Seq::empty(),
        variables: Seq::empty(),
        defines: Seq::empty(),
        docs: comment_empty(),
    }
}

/// The fully default compound.
pub open spec fn compound_default() -> CompoundView {
    compound_declared("?"@, CompoundKind::UNKNOWN)
}

/// A documentable container with ordered child-identifier lists partitioned
/// by category.
pub struct Compound {
    pub name: String,
    pub title: String,
    pub kind: CompoundKind,
    pub groups: Vec<RefID>,
    pub namespaces: Vec<RefID>,
    pub classes: Vec<RefID>,
    pub enums: Vec<RefID>,
    pub enum_values: Vec<RefID>,
    pub functions: Vec<RefID>,
    pub variables: Vec<RefID>,
    pub defines: Vec<RefID>,
    pub docs: Comment,
}

impl View for Compound {
    type V = CompoundView;

    open spec fn view(&self) -> CompoundView {
        CompoundView {
            name: self.name@,
            title: self.title@,
            kind: self.kind,
            groups: self.groups.deep_view(),
            namespaces: self.namespaces.deep_view(),
            classes: self.classes.deep_view(),
            enums: self.enums.deep_view(),
            enum_values: self.enum_values.deep_view(),
            functions: self.functions.deep_view(),
            variables: self.variables.deep_view(),
            defines: self.defines.deep_view(),
            docs: self.docs@,
        }
    }
}

impl Compound {
    pub open spec fn wf(&self) -> bool {
        self.docs.wf()
    }

    /// A default compound entity.
    pub fn new() -> (r: Compound)
        ensures
            r.wf(),
            r@ == compound_default(),
    {
        let r = Compound {
            name: "?".to_owned(),
            title: "?".to_owned(),
            kind: CompoundKind::UNKNOWN,
            groups: Vec::new(),
            namespaces: Vec::new(),
            classes: Vec::new(),
            enums: Vec::new(),
            enum_values: Vec::new(),
            functions: Vec::new(),
            variables: Vec::new(),
            defines: Vec::new(),
            docs: Comment::new(),
        };
        proof {
            assert(r.groups.deep_view() =~= Seq::<Seq<char>>::empty());
            assert(r.namespaces.deep_view() =~= Seq::<Seq<char>>::empty());
            assert(r.classes.deep_view() =~= Seq::<Seq<char>>::empty());
            assert(r.enums.deep_view() =~= Seq::<Seq<char>>::empty());
            assert(r.enum_values.deep_view() =~= Seq::<Seq<char>>::empty());
            assert(r.functions.deep_view() =~= Seq::<Seq<char>>::empty());
            assert(r.variables.deep_view() =~= Seq::<Seq<char>>::empty());
            assert(r.defines.deep_view() =~= Seq::<Seq<char>>::empty());
        }
        r
    }
}

/// Mathematical value of a `Registry`.
#[verifier::ext_equal]
pub ghost struct RegistryView {
    pub compounds: Map<Seq<char>, CompoundView>,
    pub classes: Map<Seq<char>, ClassView>,
    pub functions: Map<Seq<char>, FunctionView>,
    pub variables: Map<Seq<char>, VariableView>,
    pub defines: Map<Seq<char>, DefineView>,
    pub enums: Map<Seq<char>, EnumView>,
    pub enum_values: Map<Seq<char>, EnumValueView>,
}

/// The registry with no entities.
pub open spec fn registry_empty() -> RegistryView {
    RegistryView {
        compounds: Map::empty(),
        classes: Map::empty(),
        functions: Map::empty(),
        variables: Map::empty(),
        defines: Map::empty(),
        enums: Map::empty(),
        enum_values: Map::empty(),
    }
}

/// Owner of all entities, keyed by reference identifier, one mapping per
/// category.
pub struct Registry {
    pub compounds: IdMap<Compound>,
    pub classes: IdMap<Class>,
    pub functions: IdMap<Function>,
    pub variables: IdMap<Variable>,
    pub defines: IdMap<Define>,
    pub enums: IdMap<Enum>,
    pub enum_values: IdMap<EnumValue>,
}

impl View for Registry {
    type V = RegistryView;

    open spec fn view(&self) -> RegistryView {
        RegistryView {
            compounds: self.compounds@,
            classes: self.classes@,
            functions: self.functions@,
            variables: self.variables@,
            defines: self.defines@,
            enums: self.enums@,
            enum_values: self.enum_values@,
        }
    }
}

impl Registry {
    /// Every category mapping has distinct keys.
    pub open spec fn wf(&self) -> bool {
        self.compounds.wf() && self.classes.wf() && self.functions.wf() && self.variables.wf()
            && self.defines.wf() && self.enums.wf() && self.enum_values.wf()
    }

    /// An empty registry.
    pub fn new() -> (r: Registry)
        ensures
            r.wf(),
            r@ == registry_empty(),
    {
        Registry {
            compounds: IdMap::new(),
            classes: IdMap::new(),
            functions: IdMap::new(),
            variables: IdMap::new(),
            defines: IdMap::new(),
            enums: IdMap::new(),
            enum_values: IdMap::new(),
        }
    }

    /// Declares the compound `id`: inserts a compound with the given name
    /// and kind and every other attribute default.  Declaring an identifier
    /// twice is a programming error, ruled out by the precondition.
    pub fn add_compound(&mut self, id: RefID, kind: CompoundKind, name: String)
        requires
            old(self).wf(),
            !old(self)@.compounds.contains_key(id@),
        ensures
            final(self).wf(),
            final(self)@ == (RegistryView {
                compounds: old(self)@.compounds.insert(id@, compound_declared(name@, kind)),
                ..old(self)@
            }),
    {
        let mut compound = Compound::new();
        compound.name = name;
        compound.kind = kind;
        self.compounds.insert(id, compound);
    }
}

} // verus!
