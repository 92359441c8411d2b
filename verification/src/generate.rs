//! The rules by which an implementation of `ReprTransparent` is derived from
//! a type declaration.
//!
//! A declaration qualifies when it carries `#[repr(transparent)]` and has a
//! first field; the type of that field is the inner type of the derived
//! implementation. Every other declaration is turned down with an error that
//! names the rule it breaks, and nothing is derived for it.

use vstd::prelude::*;

verus! {

/// One token of an attribute's value.
#[derive(Debug, Clone, PartialEq, Eq)]
pub enum Token {
    /// An identifier, with its text.
    Ident(String),
    /// Anything else: punctuation, a literal, a bracketed group.
    Other,
}

/// An attribute of a declaration, such as `#[repr(transparent)]`.
#[derive(Debug, Clone, PartialEq, Eq)]
pub struct Attribute {
    /// The identifier that the attribute's path consists of, where it is a
    /// single one: `repr` in `#[repr(C)]`, nothing in `#[a::b]`.
    pub name: Option<String>,
    /// The tokens of the value: what stands between the brackets in
    /// `#[name(..)]`, or behind the sign in `#[name = ..]`; empty in `#[name]`.
    pub value: Vec<Token>,
}

/// The fields of a struct or of an enum's variant, each given by its type, in
/// the order of declaration.
#[derive(Debug, Clone, PartialEq, Eq)]
pub enum Fields {
    /// No field list at all.
    Unit,
    /// Positional fields.
    Tuple(Vec<String>),
    /// Named fields.
    Named(Vec<String>),
}

/// A variant of an enum.
#[derive(Debug, Clone, PartialEq, Eq)]
pub struct Variant {
    /// The variant's name.
    pub name: String,
    /// The variant's fields.
    pub contents: Fields,
}

/// What kind of item a declaration declares.
#[derive(Debug, Clone, PartialEq, Eq)]
pub enum Shape {
    /// A struct, with its fields.
    Struct(Fields),
    /// An enum, with its variants in the order of declaration.
    Enum(Vec<Variant>),
    /// A union, or any item that is no type with fields.
    Other,
}

/// A declaration that an implementation is asked for.
#[derive(Debug, Clone, PartialEq, Eq)]
pub struct Declaration {
    /// The attributes, in the order in which they are written.
    pub attributes: Vec<Attribute>,
    /// What is declared.
    pub shape: Shape,
}

/// Why nothing can be derived for a declaration.
#[derive(Debug, Clone, Copy, PartialEq, Eq)]
pub enum DeriveError {
    /// No attribute of the declaration is a `repr`.
    MissingRepr,
    /// The first `repr` attribute, at this position among the attributes,
    /// asks for something other than `transparent` alone.
    NotTransparent { attribute: usize },
    /// A struct without fields.
    NoFields,
    /// An enum without variants.
    NoVariants,
    /// An enum whose first variant has no field.
    NoVariantFields,
    /// Neither a struct nor an enum.
    Unsupported,
}

/// What a [`Token`] holds.
pub enum TokenView {
    /// An identifier, by its characters.
    Ident(Seq<char>),
    /// Anything else.
    Other,
}

/// What an [`Attribute`] holds.
pub struct AttributeView {
    /// The single identifier of the path, if the path is one.
    pub name: Option<Seq<char>>,
    /// The tokens of the value.
    pub value: Seq<TokenView>,
}

/// What a [`Fields`] holds: the type of each field, by its characters.
pub enum FieldsView {
    /// No field list at all.
    Unit,
    /// Positional fields.
    Tuple(Seq<Seq<char>>),
    /// Named fields.
    Named(Seq<Seq<char>>),
}

/// What a [`Variant`] holds.
pub struct VariantView {
    /// The variant's name.
    pub name: Seq<char>,
    /// The variant's fields.
    pub contents: FieldsView,
}

/// What a [`Shape`] holds.
pub enum ShapeView {
    /// A struct, with its fields.
    Struct(FieldsView),
    /// An enum, with its variants in the order of declaration.
    Enum(Seq<VariantView>),
    /// Neither.
    Other,
}

/// What a [`Declaration`] holds.
pub struct DeclarationView {
    /// The attributes, in the order in which they are written.
    pub attributes: Seq<AttributeView>,
    /// What is declared.
    pub shape: ShapeView,
}

impl View for Token {
    type V = TokenView;

    open spec fn view(&self) -> TokenView {
        match self {
            Token::Ident(text) => TokenView::Ident(text@),
            Token::Other => TokenView::Other,
        }
    }
}

impl View for Attribute {
    type V = AttributeView;

    open spec fn view(&self) -> AttributeView {
        AttributeView {
            name: match self.name {
                Some(name) => Some(name@),
                None => None,
            },
            value: self.value@.map_values(|token: Token| token@),
        }
    }
}

impl View for Fields {
    type V = FieldsView;

    open spec fn view(&self) -> FieldsView {
        match self {
            Fields::Unit => FieldsView::Unit,
            Fields::Tuple(types) => FieldsView::Tuple(types@.map_values(|ty: String| ty@)),
            Fields::Named(types) => FieldsView::Named(types@.map_values(|ty: String| ty@)),
        }
    }
}

impl View for Variant {
    type V = VariantView;

    open spec fn view(&self) -> VariantView {
        VariantView { name: self.name@, contents: self.contents@ }
    }
}

impl View for Shape {
    type V = ShapeView;

    open spec fn view(&self) -> ShapeView {
        match self {
            Shape::Struct(fields) => ShapeView::Struct(fields@),
            Shape::Enum(variants) => ShapeView::Enum(
                variants@.map_values(|variant: Variant| variant@),
            ),
            Shape::Other => ShapeView::Other,
        }
    }
}

impl View for Declaration {
    type V = DeclarationView;

    open spec fn view(&self) -> DeclarationView {
        DeclarationView {
            attributes: attribute_views(self.attributes@),
            shape: self.shape@,
        }
    }
}

impl DeriveError {
    /// The text of the diagnostic.
    pub open spec fn message_text(&self) -> Seq<char> {
        match self {
            DeriveError::MissingRepr => "requires explicit transparent-representation declaration"@,
            DeriveError::NotTransparent { .. } => "must declare transparent representation"@,
            DeriveError::NoFields => "must have at least one field"@,
            DeriveError::NoVariants => "must have at least one variant"@,
            DeriveError::NoVariantFields => "variant must have at least one field"@,
            DeriveError::Unsupported => "only structs or enums are supported"@,
        }
    }

    /// Whether two errors report the same broken rule, wherever it was broken.
    pub open spec fn same_rule(&self, other: &DeriveError) -> bool {
        match (self, other) {
            (DeriveError::MissingRepr, DeriveError::MissingRepr) => true,
            (DeriveError::NotTransparent { .. }, DeriveError::NotTransparent { .. }) => true,
            (DeriveError::NoFields, DeriveError::NoFields) => true,
            (DeriveError::NoVariants, DeriveError::NoVariants) => true,
            (DeriveError::NoVariantFields, DeriveError::NoVariantFields) => true,
            (DeriveError::Unsupported, DeriveError::Unsupported) => true,
            _ => false,
        }
    }

    /// The diagnostic to show for this error.
    pub fn message(&self) -> (text: String)
        ensures
            text@ == self.message_text(),
    {
        match self {
            DeriveError::MissingRepr => "requires explicit transparent-representation declaration".to_owned(),
            DeriveError::NotTransparent { .. } => "must declare transparent representation".to_owned(),
            DeriveError::NoFields => "must have at least one field".to_owned(),
            DeriveError::NoVariants => "must have at least one variant".to_owned(),
            DeriveError::NoVariantFields => "variant must have at least one field".to_owned(),
            DeriveError::Unsupported => "only structs or enums are supported".to_owned(),
        }
    }
}

/// Whether `text` spells `word`.
fn spells(text: &String, word: &str) -> (same: bool)
    ensures
        same == (text@ == word@),
{
    let wanted = word.to_owned();
    *text == wanted
}

impl AttributeView {
    /// Whether this is a `repr` attribute.
    pub open spec fn is_repr(&self) -> bool {
        self.name == Some("repr"@)
    }

    /// Whether the value is the one word `transparent`.
    pub open spec fn is_transparent(&self) -> bool {
        self.value == seq![TokenView::Ident("transparent"@)]
    }
}

impl Attribute {
    /// Tells whether this is a `repr` attribute.
    pub fn names_repr(&self) -> (yes: bool)
        ensures
            yes == self@.is_repr(),
    {
        match &self.name {
            Some(name) => spells(name, "repr"),
            None => false,
        }
    }

    /// Tells whether the value is the one word `transparent`.
    pub fn asks_transparent(&self) -> (yes: bool)
        ensures
            yes == self@.is_transparent(),
    {
        let ghost wanted = seq![TokenView::Ident("transparent"@)];
        assert(wanted.len() == 1 && wanted[0] == TokenView::Ident("transparent"@));
        if self.value.len() != 1 {
            return false;
        }
        let yes = match &self.value[0] {
            Token::Ident(word) => spells(word, "transparent"),
            Token::Other => false,
        };
        assert(yes ==> self@.value =~= wanted);
        assert(!yes ==> self@.value[0] != wanted[0]);
        yes
    }
}

impl FieldsView {
    /// The types of the fields, in the order of declaration.
    pub open spec fn types(&self) -> Seq<Seq<char>> {
        match self {
            FieldsView::Unit => Seq::empty(),
            FieldsView::Tuple(types) => *types,
            FieldsView::Named(types) => *types,
        }
    }
}

impl Fields {
    /// The type of the first field, if there is a field.
    pub fn first_type(&self) -> (first: Option<&String>)
        ensures
            match first {
                Some(ty) => self@.types().len() > 0 && ty@ == self@.types()[0],
                None => self@.types().len() == 0,
            },
    {
        match self {
            Fields::Unit => None,
            Fields::Tuple(types) | Fields::Named(types) => if types.len() == 0 {
                None
            } else {
                Some(&types[0])
            },
        }
    }
}

/// The position of the first `repr` attribute at or behind `from`.
pub open spec fn find_repr(attributes: Seq<AttributeView>, from: int) -> Option<int>
    decreases attributes.len() - from,
{
    if from < 0 || from >= attributes.len() {
        None
    } else if attributes[from].is_repr() {
        Some(from)
    } else {
        find_repr(attributes, from + 1)
    }
}

/// The inner type that a declaration of this shape has: the type of the first
/// field of a struct, or of the first field of an enum's first variant.
pub open spec fn inner_type(shape: ShapeView) -> Result<Seq<char>, DeriveError> {
    match shape {
        ShapeView::Struct(fields) => if fields.types().len() == 0 {
            Err(DeriveError::NoFields)
        } else {
            Ok(fields.types()[0])
        },
        ShapeView::Enum(variants) => if variants.len() == 0 {
            Err(DeriveError::NoVariants)
        } else if variants[0].contents.types().len() == 0 {
            Err(DeriveError::NoVariantFields)
        } else {
            Ok(variants[0].contents.types()[0])
        },
        ShapeView::Other => Err(DeriveError::Unsupported),
    }
}

/// What is derived for a declaration: the inner type of the implementation,
/// or the first rule that the declaration breaks. The attributes are judged
/// before the shape, and among them only the first `repr`.
pub open spec fn derived(declaration: DeclarationView) -> Result<Seq<char>, DeriveError> {
    match find_repr(declaration.attributes, 0) {
        None => Err(DeriveError::MissingRepr),
        Some(at) => if declaration.attributes[at].is_transparent() {
            inner_type(declaration.shape)
        } else {
            Err(DeriveError::NotTransparent { attribute: at as usize })
        },
    }
}

/// A result with its text taken as the characters it holds.
pub open spec fn result_view(result: Result<String, DeriveError>) -> Result<
    Seq<char>,
    DeriveError,
> {
    match result {
        Ok(text) => Ok(text@),
        Err(error) => Err(error),
    }
}

/// The attributes of a list, each as what it holds.
pub open spec fn attribute_views(attributes: Seq<Attribute>) -> Seq<AttributeView> {
    attributes.map_values(|attribute: Attribute| attribute@)
}

/// Finds the first `repr` attribute.
pub fn first_repr(attributes: &Vec<Attribute>) -> (found: Option<usize>)
    ensures
        match found {
            Some(at) => at < attributes.len() && find_repr(attribute_views(attributes@), 0) == Some(
                at as int,
            ),
            None => find_repr(attribute_views(attributes@), 0) is None,
        },
{
    let mut at: usize = 0;
    while at < attributes.len()
        invariant
            at <= attributes.len(),
            find_repr(attribute_views(attributes@), 0) == find_repr(
                attribute_views(attributes@),
                at as int,
            ),
        decreases attributes.len() - at,
    {
        if attributes[at].names_repr() {
            return Some(at);
        }
        at += 1;
    }
    None
}

/// Picks the inner type out of a declaration's shape.
pub fn inner_type_of(shape: &Shape) -> (result: Result<String, DeriveError>)
    ensures
        result_view(result) == inner_type(shape@),
{
    match shape {
        Shape::Struct(fields) => match fields.first_type() {
            Some(first) => Ok(first.clone()),
            None => Err(DeriveError::NoFields),
        },
        Shape::Enum(variants) => {
            if variants.len() == 0 {
                return Err(DeriveError::NoVariants);
            }
            match variants[0].contents.first_type() {
                Some(first) => Ok(first.clone()),
                None => Err(DeriveError::NoVariantFields),
            }
        },
        Shape::Other => Err(DeriveError::Unsupported),
    }
}

/// Derives the implementation for a declaration: returns the inner type that
/// the implementation names, or the rule that the declaration breaks.
///
/// The derived implementation converts a wrapper into its inner value by
/// reinterpreting the whole value as that type. Only the first field is
/// looked at: that every further field is zero-sized is left to whoever
/// wrote `#[repr(transparent)]`.
pub fn derive(declaration: Declaration) -> (result: Result<String, DeriveError>)
    ensures
        result_view(result) == derived(declaration@),
{
    match first_repr(&declaration.attributes) {
        None => Err(DeriveError::MissingRepr),
        Some(at) => if declaration.attributes[at].asks_transparent() {
            inner_type_of(&declaration.shape)
        } else {
            Err(DeriveError::NotTransparent { attribute: at })
        },
    }
}

/// `find_repr` names the first `repr` attribute at or behind `from`: the
/// attribute it names is a `repr` and none between `from` and it is one; it
/// names none only where there is none.
pub proof fn lemma_find_repr_is_first(attributes: Seq<AttributeView>, from: int)
    requires
        0 <= from <= attributes.len(),
    ensures
        match find_repr(attributes, from) {
            Some(at) => from <= at < attributes.len() && attributes[at].is_repr() && forall|k: int|
                from <= k < at ==> !(#[trigger] attributes[k]).is_repr(),
            None => forall|k: int|
                from <= k < attributes.len() ==> !(#[trigger] attributes[k]).is_repr(),
        },
    decreases attributes.len() - from,
{
    if from < attributes.len() && !attributes[from].is_repr() {
        lemma_find_repr_is_first(attributes, from + 1);
    }
}

/// Whether the attribute at `at` is the first `repr` among `attributes`.
pub open spec fn is_first_repr(attributes: Seq<AttributeView>, at: int) -> bool {
    &&& 0 <= at < attributes.len()
    &&& attributes[at].is_repr()
    &&& forall|k: int| 0 <= k < at ==> !(#[trigger] attributes[k]).is_repr()
}

/// Every declaration that breaks a rule is turned down, with the error of
/// that rule: one without a `repr` attribute; one whose first `repr` asks for
/// anything but `transparent`; a struct without fields; an enum without
/// variants; an enum whose first variant has no field; an item that is
/// neither a struct nor an enum.
pub proof fn lemma_rejected(declaration: DeclarationView)
    ensures
        (forall|k: int|
            0 <= k < declaration.attributes.len() ==> !(
            #[trigger] declaration.attributes[k]).is_repr()) ==> derived(declaration) == Err::<
            Seq<char>,
            DeriveError,
        >(DeriveError::MissingRepr),
        forall|at: int|
            is_first_repr(declaration.attributes, at)
                && !declaration.attributes[at].is_transparent() ==> #[trigger] derived(declaration)
                == Err::<Seq<char>, DeriveError>(DeriveError::NotTransparent { attribute: at as usize }),
        (declaration.shape matches ShapeView::Struct(fields) && fields.types().len() == 0) ==> derived(
            declaration,
        ) is Err,
        (declaration.shape matches ShapeView::Enum(variants) && variants.len() == 0) ==> derived(
            declaration,
        ) is Err,
        (declaration.shape matches ShapeView::Enum(variants) && variants.len() > 0
            && variants[0].contents.types().len() == 0) ==> derived(declaration) is Err,
        declaration.shape is Other ==> derived(declaration) is Err,
{
    lemma_find_repr_is_first(declaration.attributes, 0);
}

/// An implementation is derived exactly for the declarations whose first
/// `repr` attribute asks for `transparent` alone and whose shape has a first
/// field. Where the attributes are in order, the shape alone decides: the
/// result is the type of the first field, or the rule that the shape breaks.
pub proof fn lemma_accepted(declaration: DeclarationView)
    ensures
        derived(declaration) is Ok <==> inner_type(declaration.shape) is Ok && exists|at: int|
            is_first_repr(declaration.attributes, at)
                && #[trigger] declaration.attributes[at].is_transparent(),
        forall|at: int|
            is_first_repr(declaration.attributes, at)
                && #[trigger] declaration.attributes[at].is_transparent() ==> derived(declaration)
                == inner_type(declaration.shape),
{
    lemma_find_repr_is_first(declaration.attributes, 0);
    if derived(declaration) is Ok {
        let at = find_repr(declaration.attributes, 0).unwrap();
        assert(is_first_repr(declaration.attributes, at)
            && declaration.attributes[at].is_transparent());
    }
}

/// Each rule has a diagnostic of its own: two errors read the same exactly
/// when they report the same rule.
pub proof fn lemma_messages_distinct(a: DeriveError, b: DeriveError)
    ensures
        a.message_text() == b.message_text() <==> a.same_rule(&b),
{
    reveal_strlit("requires explicit transparent-representation declaration");
    reveal_strlit("must declare transparent representation");
    reveal_strlit("must have at least one field");
    reveal_strlit("must have at least one variant");
    reveal_strlit("variant must have at least one field");
    reveal_strlit("only structs or enums are supported");
    assert(a.same_rule(&b) <==> a.message_text().len() == b.message_text().len());
}

} // verus!
