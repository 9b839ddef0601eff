//! Planning of the code that implements an interface for a driver type.
//!
//! A driver type names the interface it implements and the versions it
//! supports in two attributes:
//!
//! ```text
//! #[interface = "IServerTrackedDeviceProvider"]
//! #[versions(4, 5)]
//! struct Provider { .. }
//! ```
//!
//! From these the plan lists, for each version in order, the slot it gets,
//! the name of the interface at that version and the name of the variant
//! that holds its wrapper.

use crate::naming::{interface_version_name, version_name};
use crate::registry::{
    lemma_resolved_version, lemma_single_construction, repeated_requests, resolved_version,
};
use crate::schema::{
    first_position, lemma_first_position, lemma_version_position, method_views, version_position,
    InterfaceDescriptor, InterfaceDescriptorView, InterfaceVersion, InterfaceVersionView,
    MethodSignature, MethodSignatureView, SemanticType,
};
use crate::vtables::{pointer_after, OpaquePointer};
use vstd::prelude::*;
use vstd::string::*;

verus! {

/// The shape of an attribute's content.
#[derive(Debug, Clone, Copy, PartialEq, Eq, Structural)]
pub enum AttributeKind {
    /// A bare path, as in `#[name]`.
    Path,
    /// A path with arguments in parentheses, as in `#[name(..)]`.
    List,
    /// A path with a value, as in `#[name = ..]`.
    NameValue,
}

/// One integer literal of the version list: its text as written and the
/// number it denotes, if that number fits in eight bits.
#[derive(Debug, Clone)]
pub struct VersionLiteral {
    pub text: String,
    pub value: Option<u8>,
}

/// A [`VersionLiteral`] as a mathematical value.
pub struct VersionLiteralView {
    pub text: Seq<char>,
    pub value: Option<u8>,
}

impl View for VersionLiteral {
    type V = VersionLiteralView;

    open spec fn view(&self) -> VersionLiteralView {
        VersionLiteralView { text: self.text@, value: self.value }
    }
}

/// The views of a list of version literals, in the same order.
pub open spec fn literal_views(literals: Seq<VersionLiteral>) -> Seq<VersionLiteralView> {
    Seq::new(literals.len(), |i: int| literals[i]@)
}

/// What the plan needs to know of one attribute of the driver type.
#[derive(Debug, Clone)]
pub struct StructAttribute {
    /// Whether the attribute stands before the item (`#[..]`).
    pub outer: bool,
    /// The attribute's name, when its path is a single identifier.
    pub ident: Option<String>,
    /// The shape of the attribute's content.
    pub kind: AttributeKind,
    /// The arguments read as a list of integer literals separated by
    /// commas, when they are one.
    pub literals: Option<Vec<VersionLiteral>>,
    /// The value, when it is a string literal.
    pub string_value: Option<String>,
}

/// A [`StructAttribute`] as a mathematical value.
pub struct StructAttributeView {
    pub outer: bool,
    pub ident: Option<Seq<char>>,
    pub kind: AttributeKind,
    pub literals: Option<Seq<VersionLiteralView>>,
    pub string_value: Option<Seq<char>>,
}

impl View for StructAttribute {
    type V = StructAttributeView;

    open spec fn view(&self) -> StructAttributeView {
        StructAttributeView {
            outer: self.outer,
            ident: match self.ident {
                Some(s) => Some(s@),
                None => None,
            },
            kind: self.kind,
            literals: match self.literals {
                Some(l) => Some(literal_views(l@)),
                None => None,
            },
            string_value: match self.string_value {
                Some(s) => Some(s@),
                None => None,
            },
        }
    }
}

/// The views of a list of attributes, in the same order.
pub open spec fn attribute_views(attributes: Seq<StructAttribute>) -> Seq<StructAttributeView> {
    Seq::new(attributes.len(), |i: int| attributes[i]@)
}

/// Why no plan can be made for a driver type.
#[derive(Debug, Clone, Copy, PartialEq, Eq, Structural)]
pub enum DeriveError {
    /// The source is not a struct.
    NotAStruct,
    /// There is no `versions` attribute.
    MissingVersions,
    /// The `versions` attribute is not a list.
    VersionsNotAList,
    /// The `versions` list is not made of integer literals.
    VersionsUnparsed,
    /// There is no `interface` attribute.
    MissingInterface,
    /// The `interface` attribute has no value.
    InterfaceUnparsed,
    /// The value of the `interface` attribute is not a string literal.
    InterfaceNotAString,
    /// A version number does not fit in eight bits.
    VersionOutOfRange,
}

/// The message that describes a derive error to a person.
pub open spec fn derive_error_message(e: DeriveError) -> Seq<char> {
    match e {
        DeriveError::NotAStruct => "expected a struct"@,
        DeriveError::MissingVersions => "missing versions attribute"@,
        DeriveError::VersionsNotAList => "versions attribute should be a list"@,
        DeriveError::VersionsUnparsed => "parsing versions failed"@,
        DeriveError::MissingInterface => "missing interface attribute"@,
        DeriveError::InterfaceUnparsed => "parsing interface failed"@,
        DeriveError::InterfaceNotAString => "expected string literal for interface"@,
        DeriveError::VersionOutOfRange => "version number out of range"@,
    }
}

impl DeriveError {
    /// The message that describes this error to a person.
    pub fn message(&self) -> (m: &'static str)
        ensures
            m@ == derive_error_message(*self),
    {
        match self {
            DeriveError::NotAStruct => "expected a struct",
            DeriveError::MissingVersions => "missing versions attribute",
            DeriveError::VersionsNotAList => "versions attribute should be a list",
            DeriveError::VersionsUnparsed => "parsing versions failed",
            DeriveError::MissingInterface => "missing interface attribute",
            DeriveError::InterfaceUnparsed => "parsing interface failed",
            DeriveError::InterfaceNotAString => "expected string literal for interface",
            DeriveError::VersionOutOfRange => "version number out of range",
        }
    }
}

/// What is generated for one supported version.
#[derive(Debug, Clone)]
pub struct VersionArm {
    /// The slot of this version among the lazily filled slots.
    pub index: usize,
    /// The version number.
    pub number: u8,
    /// The name of the interface at this version.
    pub interface_ident: String,
    /// The name of the variant that holds this version's wrapper.
    pub variant: String,
}

/// A [`VersionArm`] as a mathematical value.
pub struct VersionArmView {
    pub index: int,
    pub number: u8,
    pub interface_ident: Seq<char>,
    pub variant: Seq<char>,
}

impl View for VersionArm {
    type V = VersionArmView;

    open spec fn view(&self) -> VersionArmView {
        VersionArmView {
            index: self.index as int,
            number: self.number,
            interface_ident: self.interface_ident@,
            variant: self.variant@,
        }
    }
}

/// The views of a list of arms, in the same order.
pub open spec fn arm_views(arms: Seq<VersionArm>) -> Seq<VersionArmView> {
    Seq::new(arms.len(), |i: int| arms[i]@)
}

/// What is generated for a driver type.
#[derive(Debug, Clone)]
pub struct InterfaceImplPlan {
    /// The name of the module that holds the generated items.
    pub module_name: String,
    /// The interface that the type implements.
    pub interface: String,
    /// One arm per supported version, in the order of the attribute.
    pub arms: Vec<VersionArm>,
}

/// An [`InterfaceImplPlan`] as a mathematical value.
pub struct InterfaceImplPlanView {
    pub module_name: Seq<char>,
    pub interface: Seq<char>,
    pub arms: Seq<VersionArmView>,
}

impl View for InterfaceImplPlan {
    type V = InterfaceImplPlanView;

    open spec fn view(&self) -> InterfaceImplPlanView {
        InterfaceImplPlanView {
            module_name: self.module_name@,
            interface: self.interface@,
            arms: arm_views(self.arms@),
        }
    }
}

/// The lowercase form of a text, as the standard library computes it.
pub uninterp spec fn lowercase_of(text: Seq<char>) -> Seq<char>;

/// Writes a text in lowercase.
///
/// Calls `str::to_lowercase`, which returns the lowercase equivalent of the
/// text as a new string; the result depends on the text alone.
#[verifier::external_body]
fn lowercase(text: &str) -> (lower: String)
    ensures
        lower@ == lowercase_of(text@),
{
    text.to_lowercase()
}

/// Whether an attribute stands before the item and has the name `name`.
pub open spec fn is_outer_named(a: StructAttributeView, name: Seq<char>) -> bool {
    a.outer && a.ident == Some(name)
}

/// The arm for the literal at position `k` of the version list.
pub open spec fn arm_of(interface: Seq<char>, k: int, literal: VersionLiteralView) -> VersionArmView {
    VersionArmView {
        index: k,
        number: literal.value->0,
        interface_ident: version_name(interface, literal.value->0 as nat),
        variant: seq!['V'] + literal.text,
    }
}

/// The arms for a version list: one per literal, in order.
pub open spec fn arms_of(interface: Seq<char>, literals: Seq<VersionLiteralView>) -> Seq<
    VersionArmView,
> {
    Seq::new(literals.len(), |k: int| arm_of(interface, k, literals[k]))
}

/// Whether some literal of the list denotes no eight-bit number.
pub open spec fn has_unreadable_version(literals: Seq<VersionLiteralView>) -> bool {
    exists|k: int| 0 <= k < literals.len() && (#[trigger] literals[k]).value is None
}

/// The name of the module generated for a type.
pub open spec fn module_name_of(struct_name: Seq<char>) -> Seq<char> {
    lowercase_of(struct_name) + "_gen"@
}

/// The plan for a driver type with the given name and attributes.
///
/// The first outer attribute named `versions` must be a list of integer
/// literals, the first outer attribute named `interface` must have a string
/// literal as its value, and every version must fit in eight bits. The
/// errors are reported in this order.
pub open spec fn derive_plan(struct_name: Seq<char>, attributes: Seq<StructAttributeView>) -> Result<
    InterfaceImplPlanView,
    DeriveError,
> {
    match first_position(attributes, |a: StructAttributeView| is_outer_named(a, "versions"@)) {
        None => Err(DeriveError::MissingVersions),
        Some(i) => if attributes[i].kind != AttributeKind::List {
            Err(DeriveError::VersionsNotAList)
        } else {
            match attributes[i].literals {
                None => Err(DeriveError::VersionsUnparsed),
                Some(literals) => match first_position(
                    attributes,
                    |a: StructAttributeView| is_outer_named(a, "interface"@),
                ) {
                    None => Err(DeriveError::MissingInterface),
                    Some(j) => if attributes[j].kind != AttributeKind::NameValue {
                        Err(DeriveError::InterfaceUnparsed)
                    } else {
                        match attributes[j].string_value {
                            None => Err(DeriveError::InterfaceNotAString),
                            Some(interface) => if has_unreadable_version(literals) {
                                Err(DeriveError::VersionOutOfRange)
                            } else {
                                Ok(
                                    InterfaceImplPlanView {
                                        module_name: module_name_of(struct_name),
                                        interface,
                                        arms: arms_of(interface, literals),
                                    },
                                )
                            },
                        }
                    },
                },
            }
        },
    }
}

/// The view of a planning result.
pub open spec fn plan_result_view(r: Result<InterfaceImplPlan, DeriveError>) -> Result<
    InterfaceImplPlanView,
    DeriveError,
> {
    match r {
        Ok(p) => Ok(p@),
        Err(e) => Err(e),
    }
}

fn find_outer_named(attributes: &Vec<StructAttribute>, name: &str) -> (found: Option<usize>)
    ensures
        match found {
            Some(i) => i < attributes.len() && first_position(
                attribute_views(attributes@),
                |a: StructAttributeView| is_outer_named(a, name@),
            ) == Some(i as int),
            None => first_position(
                attribute_views(attributes@),
                |a: StructAttributeView| is_outer_named(a, name@),
            ) is None,
        },
{
    let wanted = String::from_str(name);
    let ghost f = |a: StructAttributeView| is_outer_named(a, name@);
    let ghost views = attribute_views(attributes@);
    let mut i: usize = 0;
    while i < attributes.len()
        invariant
            i <= attributes.len(),
            wanted@ == name@,
            views == attribute_views(attributes@),
            f == |a: StructAttributeView| is_outer_named(a, name@),
            forall|j: int| 0 <= j < i ==> !f(views[j]),
        decreases attributes.len() - i,
    {
        assert(views[i as int] == attributes@[i as int]@);
        let matches = attributes[i].outer && match &attributes[i].ident {
            Some(ident) => *ident == wanted,
            None => false,
        };
        if matches {
            proof {
                lemma_first_position(views, f);
            }
            return Some(i);
        }
        i += 1;
    }
    proof {
        lemma_first_position(views, f);
    }
    None
}

fn build_arms(interface: &str, literals: &Vec<VersionLiteral>) -> (arms: Option<Vec<VersionArm>>)
    ensures
        match arms {
            Some(a) => !has_unreadable_version(literal_views(literals@)) && arm_views(a@)
                == arms_of(interface@, literal_views(literals@)),
            None => has_unreadable_version(literal_views(literals@)),
        },
{
    let ghost views = literal_views(literals@);
    let mut arms: Vec<VersionArm> = Vec::new();
    let mut k: usize = 0;
    while k < literals.len()
        invariant
            k <= literals.len(),
            views == literal_views(literals@),
            arms@.len() == k,
            forall|j: int| 0 <= j < k ==> (#[trigger] views[j]).value is Some,
            forall|j: int| 0 <= j < k ==> (#[trigger] arms@[j])@ == arm_of(interface@, j, views[j]),
        decreases literals.len() - k,
    {
        assert(views[k as int] == literals@[k as int]@);
        let number = match literals[k].value {
            Some(n) => n,
            None => {
                return None;
            },
        };
        let mut variant = String::from_str("V");
        variant.append(literals[k].text.as_str());
        proof {
            reveal_strlit("V");
            assert("V"@ =~= seq!['V']);
        }
        arms.push(
            VersionArm {
                index: k,
                number,
                interface_ident: interface_version_name(interface, number as u32),
                variant,
            },
        );
        k += 1;
    }
    Some(arms)
}

/// Plans the generated code for a driver type from its name and its
/// attributes. See [`derive_plan`].
pub fn plan_interface_impl(struct_name: &str, attributes: &Vec<StructAttribute>) -> (r: Result<
    InterfaceImplPlan,
    DeriveError,
>)
    ensures
        plan_result_view(r) == derive_plan(struct_name@, attribute_views(attributes@)),
{
    let ghost views = attribute_views(attributes@);
    let i = match find_outer_named(attributes, "versions") {
        Some(i) => i,
        None => {
            return Err(DeriveError::MissingVersions);
        },
    };
    if attributes[i].kind != AttributeKind::List {
        return Err(DeriveError::VersionsNotAList);
    }
    let literals = match &attributes[i].literals {
        Some(l) => l,
        None => {
            return Err(DeriveError::VersionsUnparsed);
        },
    };
    let j = match find_outer_named(attributes, "interface") {
        Some(j) => j,
        None => {
            return Err(DeriveError::MissingInterface);
        },
    };
    if attributes[j].kind != AttributeKind::NameValue {
        return Err(DeriveError::InterfaceUnparsed);
    }
    let interface = match &attributes[j].string_value {
        Some(s) => s,
        None => {
            return Err(DeriveError::InterfaceNotAString);
        },
    };
    let arms = match build_arms(interface.as_str(), literals) {
        Some(arms) => arms,
        None => {
            return Err(DeriveError::VersionOutOfRange);
        },
    };
    let mut module_name = lowercase(struct_name);
    module_name.append("_gen");
    Ok(InterfaceImplPlan { module_name, interface: interface.clone(), arms })
}

/// The interface that a plan describes, as the registry serves it: the
/// plan's interface with one version per arm, in the order of the arms,
/// each with the given methods.
pub open spec fn planned_descriptor(
    plan: InterfaceImplPlanView,
    methods: Seq<MethodSignatureView>,
) -> InterfaceDescriptorView {
    InterfaceDescriptorView {
        name: plan.interface,
        versions: Seq::new(
            plan.arms.len(),
            |k: int| InterfaceVersionView { version: plan.arms[k].number as u32, methods },
        ),
    }
}

/// In a plan made for a driver type, the name of every arm is the name
/// under which the registry for the planned interface serves the arm's
/// version.
pub proof fn lemma_planned_names_resolve(
    struct_name: Seq<char>,
    attributes: Seq<StructAttributeView>,
    methods: Seq<MethodSignatureView>,
    k: int,
)
    requires
        derive_plan(struct_name, attributes) is Ok,
        0 <= k < derive_plan(struct_name, attributes)->Ok_0.arms.len(),
    ensures
        derive_plan(struct_name, attributes)->Ok_0.arms[k].index == k,
        derive_plan(struct_name, attributes)->Ok_0.arms[k].interface_ident == version_name(
            derive_plan(struct_name, attributes)->Ok_0.interface,
            derive_plan(struct_name, attributes)->Ok_0.arms[k].number as nat,
        ),
        resolved_version(
            planned_descriptor(derive_plan(struct_name, attributes)->Ok_0, methods),
            derive_plan(struct_name, attributes)->Ok_0.arms[k].interface_ident,
        ) == Some(derive_plan(struct_name, attributes)->Ok_0.arms[k].number as u32),
{
    let plan = derive_plan(struct_name, attributes)->Ok_0;
    let d = planned_descriptor(plan, methods);
    let v = plan.arms[k].number as u32;
    assert(d.versions[k].version == v);
    lemma_version_position(d.versions, v);
    lemma_resolved_version(d, plan.arms[k].interface_ident);
}

/// However often a version of a planned type is requested from an empty
/// slot, one record is constructed for it and every request returns the
/// same pointer, which is not null.
pub proof fn lemma_planned_version_constructed_once(
    struct_name: Seq<char>,
    attributes: Seq<StructAttributeView>,
    methods: Seq<MethodSignatureView>,
    k: int,
    slots: Seq<Option<OpaquePointer>>,
    arena_len: nat,
    count: nat,
)
    requires
        derive_plan(struct_name, attributes) is Ok,
        0 <= k < derive_plan(struct_name, attributes)->Ok_0.arms.len(),
        slots.len() == derive_plan(struct_name, attributes)->Ok_0.arms.len(),
        forall|i: int| 0 <= i < slots.len() ==> slots[i] is None,
        arena_len < usize::MAX,
        count >= 1,
    ensures
        !pointer_after(arena_len).is_null(),
        repeated_requests(
            planned_descriptor(derive_plan(struct_name, attributes)->Ok_0, methods),
            slots,
            arena_len,
            derive_plan(struct_name, attributes)->Ok_0.arms[k].number as u32,
            count,
        ).constructions == 1,
        forall|j: int|
            0 <= j < count ==> #[trigger] repeated_requests(
                planned_descriptor(derive_plan(struct_name, attributes)->Ok_0, methods),
                slots,
                arena_len,
                derive_plan(struct_name, attributes)->Ok_0.arms[k].number as u32,
                count,
            ).results[j] == Some(pointer_after(arena_len)),
{
    let plan = derive_plan(struct_name, attributes)->Ok_0;
    let d = planned_descriptor(plan, methods);
    let v = plan.arms[k].number as u32;
    assert(d.versions[k].version == v);
    lemma_version_position(d.versions, v);
    lemma_single_construction(d, slots, arena_len, v, count);
}

fn copy_methods(methods: &Vec<MethodSignature>) -> (copy: Vec<MethodSignature>)
    ensures
        method_views(copy@) == method_views(methods@),
{
    let mut copy: Vec<MethodSignature> = Vec::new();
    let mut i: usize = 0;
    while i < methods.len()
        invariant
            i <= methods.len(),
            copy@.len() == i,
            forall|j: int| 0 <= j < i ==> (#[trigger] copy@[j])@ == methods@[j]@,
        decreases methods.len() - i,
    {
        let mut params: Vec<SemanticType> = Vec::new();
        let mut p: usize = 0;
        while p < methods[i].params.len()
            invariant
                i < methods.len(),
                p <= methods[i as int].params.len(),
                params@ == methods[i as int].params@.subrange(0, p as int),
            decreases methods[i as int].params.len() - p,
        {
            params.push(methods[i].params[p]);
            assert(params@ =~= methods[i as int].params@.subrange(0, p + 1));
            p += 1;
        }
        assert(params@ =~= methods[i as int].params@);
        copy.push(MethodSignature::new(methods[i].name.as_str(), params, methods[i].ret));
        i += 1;
    }
    assert(method_views(copy@) =~= method_views(methods@));
    copy
}

impl InterfaceImplPlan {
    /// The interface that this plan describes, for the registry to serve:
    /// one version per arm, in the order of the arms, each with `methods`.
    pub fn descriptor(&self, methods: &Vec<MethodSignature>) -> (d: InterfaceDescriptor)
        ensures
            d@ == planned_descriptor(self@, method_views(methods@)),
    {
        let mut versions: Vec<InterfaceVersion> = Vec::new();
        let mut k: usize = 0;
        while k < self.arms.len()
            invariant
                k <= self.arms.len(),
                versions@.len() == k,
                forall|j: int|
                    0 <= j < k ==> (#[trigger] versions@[j])@ == (InterfaceVersionView {
                        version: self.arms@[j].number as u32,
                        methods: method_views(methods@),
                    }),
            decreases self.arms.len() - k,
        {
            versions.push(
                InterfaceVersion {
                    version: self.arms[k].number as u32,
                    methods: copy_methods(methods),
                },
            );
            k += 1;
        }
        let d = InterfaceDescriptor { name: String::from_str(self.interface.as_str()), versions };
        assert(d@.versions =~= planned_descriptor(self@, method_views(methods@)).versions);
        d
    }
}

/// A struct item as `syn` parses it.
#[verifier::external_type_specification]
#[verifier::external_body]
pub struct ExItemStruct(syn::ItemStruct);

/// An attribute as `syn` parses it.
#[verifier::external_type_specification]
#[verifier::external_body]
pub struct ExAttribute(syn::Attribute);

/// Parses `source` as a struct item.
///
/// Calls `syn::parse_str` for an `ItemStruct`. Which texts parse, and to
/// what, is for the lexer at work to say: it is the compiler's inside a
/// procedural macro and the fallback of `proc-macro2` elsewhere. Nothing is
/// claimed of the result.
#[verifier::external_body]
fn parse_item_struct(source: &str) -> Option<syn::ItemStruct> {
    syn::parse_str::<syn::ItemStruct>(source).ok()
}

/// The name of a parsed struct: its identifier written as text
/// (`Ident::to_string`).
#[verifier::external_body]
fn struct_name(item: &syn::ItemStruct) -> String {
    item.ident.to_string()
}

/// The attributes of a parsed struct, in order (a copy of `attrs`).
#[verifier::external_body]
fn struct_attributes(item: &syn::ItemStruct) -> Vec<syn::Attribute> {
    item.attrs.clone()
}

/// Whether a parsed attribute stands before the item: its style is
/// `AttrStyle::Outer`.
#[verifier::external_body]
fn attribute_outer(attribute: &syn::Attribute) -> bool {
    matches!(attribute.style, syn::AttrStyle::Outer)
}

/// The name of a parsed attribute.
///
/// Calls `Path::get_ident` on the attribute's path, which gives the
/// identifier of a path that consists of one plain segment and nothing for
/// any other path.
#[verifier::external_body]
fn attribute_ident(attribute: &syn::Attribute) -> Option<String> {
    attribute.path().get_ident().map(|ident| ident.to_string())
}

/// The shape of the content of a parsed attribute: the variant of its
/// `Meta`.
#[verifier::external_body]
fn attribute_kind(attribute: &syn::Attribute) -> AttributeKind {
    match &attribute.meta {
        syn::Meta::List(_) => AttributeKind::List,
        syn::Meta::NameValue(_) => AttributeKind::NameValue,
        syn::Meta::Path(_) => AttributeKind::Path,
    }
}

/// The arguments of a parsed attribute read as a version list.
///
/// Calls `Meta::require_list` and `MetaList::parse_args_with` with the
/// parser of one or more integer literals separated by commas. Each literal
/// gives its text as written and the result of `LitInt::base10_parse` for
/// an eight-bit number. The result is `None` when the attribute is no list
/// or its arguments do not parse.
#[verifier::external_body]
fn version_literals(attribute: &syn::Attribute) -> Option<Vec<VersionLiteral>> {
    let list = attribute.meta.require_list().ok()?;
    let parser =
        syn::punctuated::Punctuated::<syn::LitInt, syn::token::Comma>::parse_separated_nonempty;
    let parsed = list.parse_args_with(parser).ok()?;
    Some(
        parsed.iter().map(
            |lit| VersionLiteral { text: lit.to_string(), value: lit.base10_parse::<u8>().ok() },
        ).collect(),
    )
}

/// The value of a parsed attribute, when it is a name-value pair whose
/// value is a string literal: the literal's contents (`LitStr::value`).
#[verifier::external_body]
fn string_value(attribute: &syn::Attribute) -> Option<String> {
    match &attribute.meta {
        syn::Meta::NameValue(pair) => match &pair.value {
            syn::Expr::Lit(syn::ExprLit { lit: syn::Lit::Str(text), .. }) => Some(text.value()),
            _ => None,
        },
        _ => None,
    }
}

/// Reads the name and the attributes of the struct that `source` declares,
/// from one parse; `None` when the source does not parse as a struct.
fn read_struct(source: &str) -> Option<(String, Vec<StructAttribute>)> {
    let item = match parse_item_struct(source) {
        Some(item) => item,
        None => {
            return None;
        },
    };
    let parsed = struct_attributes(&item);
    let mut attributes: Vec<StructAttribute> = Vec::new();
    let mut i: usize = 0;
    while i < parsed.len()
        invariant
            i <= parsed.len(),
        decreases parsed.len() - i,
    {
        let attribute = StructAttribute {
            outer: attribute_outer(&parsed[i]),
            ident: attribute_ident(&parsed[i]),
            kind: attribute_kind(&parsed[i]),
            literals: version_literals(&parsed[i]),
            string_value: string_value(&parsed[i]),
        };
        attributes.push(attribute);
        i += 1;
    }
    Some((struct_name(&item), attributes))
}

/// Plans the code that implements an interface for the driver type that
/// `source` declares.
///
/// The source is parsed once. When it declares no struct, no plan is made.
/// Otherwise the plan is the one that [`derive_plan`] gives for the name
/// and the attributes that the parse found; what the parse finds in a text
/// is not stated here.
pub fn derive_interface_impl(source: &str) -> (r: Result<InterfaceImplPlan, DeriveError>)
    ensures
        r == Err::<InterfaceImplPlan, DeriveError>(DeriveError::NotAStruct) || exists|
            name: Seq<char>,
            attributes: Seq<StructAttributeView>,
        | #[trigger]
            derive_plan(name, attributes) == plan_result_view(r),
{
    match read_struct(source) {
        None => Err(DeriveError::NotAStruct),
        Some((name, attributes)) => {
            let r = plan_interface_impl(name.as_str(), &attributes);
            assert(derive_plan(name@, attribute_views(attributes@)) == plan_result_view(r));
            r
        },
    }
}

} // verus!
