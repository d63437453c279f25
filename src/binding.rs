//! Resolution of a driver-framework function binding by name: from the name
//! of a framework function and the type aliases of the generated bindings,
//! the names of the function-pointer type, of the function-table index and of
//! the inline function that makes the call, and the signature of that call.
//!
//! Each framework function `F` has a type alias `PFN_<F in upper case>` of the
//! form `Option<unsafe extern "C" fn(DriverGlobals: PWDF_DRIVER_GLOBALS, ...)
//! -> R>`. The call goes through the function table at the index
//! `<F>TableIndex`, passes the driver globals itself, and forwards the other
//! parameters, whose types are taken from the bindings crate.
use vstd::prelude::*;
use vstd::string::StringExecFns;

use crate::text::{concat, snake_case, to_snake_case, to_uppercase, uppercase_of};

verus! {

/// Last segment of the type of the parameter that every framework function
/// takes first, which the call supplies itself.
pub const DRIVER_GLOBALS_TYPE: &'static str = "PWDF_DRIVER_GLOBALS";

/// The crate that holds the generated bindings; parameter and result types
/// are written as paths into it.
pub const BINDINGS_CRATE: &'static str = "wdk_sys";

/// One segment of a type path: its identifier, and its generic arguments as
/// written (empty where there are none).
#[derive(Debug, PartialEq, Eq)]
pub struct PathSegment {
    pub ident: String,
    pub arguments: String,
}

/// The type of a parameter or result, as far as the binding reads it.
#[derive(Debug, PartialEq, Eq)]
pub enum BindingType {
    /// A path type, by its segments.
    Path(Vec<PathSegment>),
    /// A raw pointer to a path type.
    PointerToPath { mutable: bool, segments: Vec<PathSegment> },
    /// Any other type.
    Other,
}

/// A parameter of a bare function type.
#[derive(Debug, PartialEq, Eq)]
pub struct FnParam {
    pub name: Option<String>,
    pub ty: BindingType,
}

/// A bare function type: its parameters and its result type, `None` for `()`.
#[derive(Debug, PartialEq, Eq)]
pub struct FnSignature {
    pub inputs: Vec<FnParam>,
    pub output: Option<BindingType>,
}

/// The type that an alias stands for, as far as the binding reads it.
#[derive(Debug, PartialEq, Eq)]
pub enum AliasedType {
    /// A path type. `last_segment` is the identifier of its last segment, if
    /// it has segments; `fn_argument` the bare function type that stands as
    /// the first generic argument of that segment, if one does.
    Path { last_segment: Option<String>, fn_argument: Option<FnSignature> },
    /// Any other type.
    Other,
}

/// A type alias of the generated bindings.
#[derive(Debug, PartialEq, Eq)]
pub struct TypeAlias {
    pub name: String,
    pub aliased: AliasedType,
}

/// Why a binding could not be resolved.
#[derive(Debug, PartialEq, Eq)]
pub enum BindingError {
    /// The bindings have no type alias of this name.
    TypeAliasNotFound { name: String },
    /// The alias does not stand for a path type.
    NotATypePath,
    /// The alias's path does not end in `Option`.
    NotAnOption,
    /// The `Option` does not hold a bare function type.
    NoFnPointerArgument,
    /// The function's first parameter is not the driver globals.
    MissingDriverGlobals,
    /// The parameter at `index` of the function type is neither a path type
    /// nor a pointer to one.
    UnsupportedParameterType { index: usize },
    /// The result type is not a path type.
    UnsupportedReturnType,
    /// The parameter at `index` of the function type has no name.
    UnnamedParameter { index: usize },
}

/// Everything a call site needs to call a framework function through the
/// function table.
#[derive(Debug, PartialEq, Eq)]
pub struct ResolvedBinding {
    /// `PFN_<FUNCTION>`: the type of the function pointer.
    pub function_pointer_type: String,
    /// `<Function>TableIndex`: the function's index in the table.
    pub function_table_index: String,
    /// `<function>_impl`: the inline function that makes the call.
    pub inline_fn_name: String,
    /// The parameters that the caller passes, with their types in the
    /// bindings crate.
    pub parameters: Vec<FnParam>,
    /// The names of those parameters.
    pub parameter_identifiers: Vec<String>,
    /// The result type in the bindings crate; `None` for `()`.
    pub return_type: Option<BindingType>,
    /// Whether the result must be used: whenever there is one.
    pub must_use: bool,
}

/// Name of the function-pointer type alias of a framework function.
pub open spec fn function_pointer_type_name(function: Seq<char>) -> Seq<char> {
    "PFN_"@ + uppercase_of(function)
}

/// Name of a framework function's index in the function table.
pub open spec fn function_table_index_name(function: Seq<char>) -> Seq<char> {
    function + "TableIndex"@
}

/// Name of the inline function that calls a framework function.
pub open spec fn inline_fn_name(function: Seq<char>) -> Seq<char> {
    snake_case(function) + "_impl"@
}

/// A segment as a pair of character sequences.
pub open spec fn segment_view(s: PathSegment) -> (Seq<char>, Seq<char>) {
    (s.ident@, s.arguments@)
}

/// Segments as pairs of character sequences.
pub open spec fn segments_view(v: Seq<PathSegment>) -> Seq<(Seq<char>, Seq<char>)> {
    v.map_values(|s: PathSegment| segment_view(s))
}

/// `segments` with the bindings crate in front.
pub open spec fn in_bindings_crate(segments: Seq<PathSegment>) -> Seq<(Seq<char>, Seq<char>)> {
    seq![(BINDINGS_CRATE@, Seq::<char>::empty())] + segments_view(segments)
}

/// Whether a parameter type can be forwarded: a path, or a pointer to one.
pub open spec fn forwardable(t: BindingType) -> bool {
    t is Path || t is PointerToPath
}

/// `after` is `before` with its path moved into the bindings crate.
pub open spec fn moved_to_bindings_crate(before: BindingType, after: BindingType) -> bool {
    match before {
        BindingType::Path(s) => after matches BindingType::Path(s2) && segments_view(s2@)
            == in_bindings_crate(s@),
        BindingType::PointerToPath { mutable, segments } => after matches BindingType::PointerToPath {
            mutable: m2,
            segments: s2,
        } && m2 == mutable && segments_view(s2@) == in_bindings_crate(segments@),
        BindingType::Other => false,
    }
}

/// The alias at `i` is the first of that name.
pub open spec fn first_alias_named(aliases: Seq<TypeAlias>, name: Seq<char>, i: int) -> bool {
    &&& 0 <= i < aliases.len()
    &&& aliases[i].name@ == name
    &&& forall|j: int| 0 <= j < i ==> aliases[j].name@ != name
}

/// The function type that an alias stands for, or why it stands for none.
pub open spec fn alias_signature(aliased: AliasedType) -> Result<FnSignature, BindingError> {
    match aliased {
        AliasedType::Other => Err(BindingError::NotATypePath),
        AliasedType::Path { last_segment, fn_argument } => {
            if !(last_segment matches Some(l) && l@ == "Option"@) {
                Err(BindingError::NotAnOption)
            } else {
                match fn_argument {
                    Some(sig) => Ok(sig),
                    None => Err(BindingError::NoFnPointerArgument),
                }
            }
        },
    }
}

/// The first parameter is the driver globals.
pub open spec fn takes_driver_globals(sig: FnSignature) -> bool {
    sig.inputs@.len() > 0 && (sig.inputs@[0].ty matches BindingType::Path(s) && s@.len() > 0
        && s@.last().ident@ == DRIVER_GLOBALS_TYPE@)
}

/// `k` is the first forwarded parameter whose type cannot be forwarded.
pub open spec fn first_unforwardable(sig: FnSignature, k: int) -> bool {
    &&& 1 <= k < sig.inputs@.len()
    &&& !forwardable(sig.inputs@[k].ty)
    &&& forall|j: int| 1 <= j < k ==> forwardable(#[trigger] sig.inputs@[j].ty)
}

/// `k` is the first forwarded parameter without a name.
pub open spec fn first_unnamed(sig: FnSignature, k: int) -> bool {
    &&& 1 <= k < sig.inputs@.len()
    &&& sig.inputs@[k].name is None
    &&& forall|j: int| 1 <= j < k ==> (#[trigger] sig.inputs@[j]).name is Some
}

/// What the call of `function`, of type `sig`, consists of.
pub open spec fn binding_of(function: Seq<char>, sig: FnSignature, b: ResolvedBinding) -> bool {
    &&& b.function_pointer_type@ == function_pointer_type_name(function)
    &&& b.function_table_index@ == function_table_index_name(function)
    &&& b.inline_fn_name@ == inline_fn_name(function)
    &&& b.parameters@.len() == sig.inputs@.len() - 1
    &&& forall|k: int|
        0 <= k < b.parameters@.len() ==> {
            &&& (#[trigger] b.parameters@[k]).name == sig.inputs@[k + 1].name
            &&& moved_to_bindings_crate(sig.inputs@[k + 1].ty, b.parameters@[k].ty)
            &&& (sig.inputs@[k + 1].name matches Some(n) && b.parameter_identifiers@[k] == n)
        }
    &&& b.parameter_identifiers@.len() == b.parameters@.len()
    &&& match sig.output {
        None => b.return_type is None,
        Some(t) => b.return_type matches Some(t2) && moved_to_bindings_crate(t, t2),
    }
    &&& b.must_use == (sig.output is Some)
}

/// What resolving `function` against the function type `sig` gives.
pub open spec fn resolves_signature(
    function: Seq<char>,
    sig: FnSignature,
    r: Result<ResolvedBinding, BindingError>,
) -> bool {
    if !takes_driver_globals(sig) {
        r == Err::<ResolvedBinding, BindingError>(BindingError::MissingDriverGlobals)
    } else if exists|k: int| 1 <= k < sig.inputs@.len() && !forwardable(#[trigger] sig.inputs@[k].ty) {
        r matches Err(BindingError::UnsupportedParameterType { index }) && first_unforwardable(
            sig,
            index as int,
        )
    } else if sig.output matches Some(t) && !(t is Path) {
        r == Err::<ResolvedBinding, BindingError>(BindingError::UnsupportedReturnType)
    } else if exists|k: int| 1 <= k < sig.inputs@.len() && (#[trigger] sig.inputs@[k]).name is None {
        r matches Err(BindingError::UnnamedParameter { index }) && first_unnamed(sig, index as int)
    } else {
        r matches Ok(b) && binding_of(function, sig, b)
    }
}

fn clone_segments(segments: &Vec<PathSegment>, first: PathSegment) -> (r: Vec<PathSegment>)
    ensures
        segments_view(r@) == seq![segment_view(first)] + segments_view(segments@),
{
    let ghost head = segment_view(first);
    let mut r: Vec<PathSegment> = Vec::new();
    r.push(first);
    let mut i: usize = 0;
    while i < segments.len()
        invariant
            i <= segments@.len(),
            segments_view(r@) == seq![head] + segments_view(segments@.take(i as int)),
        decreases segments@.len() - i,
    {
        let ghost before = r@;
        r.push(PathSegment { ident: segments[i].ident.clone(), arguments: segments[i].arguments.clone() });
        assert(segments_view(r@) =~= segments_view(before).push(segment_view(segments@[i as int])));
        assert(segments_view(segments@.take(i + 1)) =~= segments_view(segments@.take(i as int)).push(
            segment_view(segments@[i as int]),
        ));
        i += 1;
    }
    assert(segments@.take(segments@.len() as int) =~= segments@);
    r
}

/// `t` with its path moved into the bindings crate, if it can be forwarded.
fn move_to_bindings_crate(t: &BindingType) -> (r: Option<BindingType>)
    ensures
        forwardable(*t) ==> (r matches Some(t2) && moved_to_bindings_crate(*t, t2)),
        !forwardable(*t) ==> r is None,
{
    let first = PathSegment { ident: BINDINGS_CRATE.to_owned(), arguments: String::new() };
    match t {
        BindingType::Path(s) => Some(BindingType::Path(clone_segments(s, first))),
        BindingType::PointerToPath { mutable, segments } => Some(
            BindingType::PointerToPath { mutable: *mutable, segments: clone_segments(segments, first) },
        ),
        BindingType::Other => None,
    }
}

fn clone_name(name: &Option<String>) -> (r: Option<String>)
    ensures
        r == *name,
{
    match name {
        Some(n) => Some(n.clone()),
        None => None,
    }
}

/// Resolves the call of `function` against the function type `sig`: checks
/// the driver globals, moves the other parameters and the result into the
/// bindings crate, and names the parameters.
pub fn resolve_signature(function: &str, sig: &FnSignature) -> (r: Result<ResolvedBinding, BindingError>)
    ensures
        resolves_signature(function@, *sig, r),
{
    let n = sig.inputs.len();
    let takes_globals = n > 0 && match &sig.inputs[0].ty {
        BindingType::Path(s) => s.len() > 0 && s[s.len() - 1].ident == DRIVER_GLOBALS_TYPE.to_owned(),
        _ => false,
    };
    if !takes_globals {
        return Err(BindingError::MissingDriverGlobals);
    }
    let mut parameters: Vec<FnParam> = Vec::new();
    let mut k: usize = 1;
    while k < n
        invariant
            1 <= k <= n,
            n == sig.inputs@.len(),
            takes_driver_globals(*sig),
            parameters@.len() == k - 1,
            forall|j: int| 1 <= j < k ==> forwardable(#[trigger] sig.inputs@[j].ty),
            forall|j: int|
                0 <= j < parameters@.len() ==> (#[trigger] parameters@[j]).name == sig.inputs@[j + 1].name
                    && moved_to_bindings_crate(sig.inputs@[j + 1].ty, parameters@[j].ty),
        decreases n - k,
    {
        match move_to_bindings_crate(&sig.inputs[k].ty) {
            Some(ty) => {
                parameters.push(FnParam { name: clone_name(&sig.inputs[k].name), ty });
            },
            None => {
                assert(!forwardable(sig.inputs@[k as int].ty));
                assert(first_unforwardable(*sig, k as int));
                return Err(BindingError::UnsupportedParameterType { index: k });
            },
        }
        k += 1;
    }
    let return_type = match &sig.output {
        None => None,
        Some(t) => match t {
            BindingType::Path(_) => move_to_bindings_crate(t),
            _ => {
                return Err(BindingError::UnsupportedReturnType);
            },
        },
    };
    let mut parameter_identifiers: Vec<String> = Vec::new();
    let mut k: usize = 0;
    while k < parameters.len()
        invariant
            k <= parameters@.len(),
            parameters@.len() == n - 1,
            n == sig.inputs@.len(),
            takes_driver_globals(*sig),
            forall|j: int| 1 <= j < n ==> forwardable(#[trigger] sig.inputs@[j].ty),
            !(sig.output matches Some(t) && !(t is Path)),
            parameter_identifiers@.len() == k,
            forall|j: int| 1 <= j <= k ==> (#[trigger] sig.inputs@[j]).name is Some,
            forall|j: int|
                0 <= j < parameters@.len() ==> (#[trigger] parameters@[j]).name == sig.inputs@[j + 1].name,
            forall|j: int|
                0 <= j < k ==> (sig.inputs@[j + 1].name matches Some(nm)
                    && #[trigger] parameter_identifiers@[j] == nm),
        decreases parameters@.len() - k,
    {
        match &parameters[k].name {
            Some(name) => parameter_identifiers.push(name.clone()),
            None => {
                assert(sig.inputs@[k + 1].name is None);
                assert(first_unnamed(*sig, k + 1));
                return Err(BindingError::UnnamedParameter { index: k + 1 });
            },
        }
        k += 1;
    }
    let must_use = sig.output.is_some();
    let b = ResolvedBinding {
        function_pointer_type: concat("PFN_", to_uppercase(function).as_str()),
        function_table_index: concat(function, "TableIndex"),
        inline_fn_name: concat(to_snake_case(function).as_str(), "_impl"),
        parameters,
        parameter_identifiers,
        return_type,
        must_use,
    };
    Ok(b)
}

/// What resolving `function` against the type aliases of the bindings gives:
/// the first alias named after the function's pointer type decides.
pub open spec fn resolves(
    function: Seq<char>,
    aliases: Seq<TypeAlias>,
    r: Result<ResolvedBinding, BindingError>,
) -> bool {
    let name = function_pointer_type_name(function);
    if forall|i: int| 0 <= i < aliases.len() ==> (#[trigger] aliases[i]).name@ != name {
        r matches Err(BindingError::TypeAliasNotFound { name: n }) && n@ == name
    } else {
        forall|i: int|
            #![trigger aliases[i]]
            first_alias_named(aliases, name, i) ==> match alias_signature(aliases[i].aliased) {
                Err(e) => r == Err::<ResolvedBinding, BindingError>(e),
                Ok(sig) => resolves_signature(function, sig, r),
            }
    }
}

/// The function type that an alias stands for.
fn signature_of(aliased: &AliasedType) -> (r: Result<&FnSignature, BindingError>)
    ensures
        match alias_signature(*aliased) {
            Ok(sig) => r matches Ok(s) && *s == sig,
            Err(e) => r == Err::<&FnSignature, BindingError>(e),
        },
{
    match aliased {
        AliasedType::Other => Err(BindingError::NotATypePath),
        AliasedType::Path { last_segment, fn_argument } => {
            let is_option = match last_segment {
                Some(l) => *l == "Option".to_owned(),
                None => false,
            };
            if !is_option {
                return Err(BindingError::NotAnOption);
            }
            match fn_argument {
                Some(sig) => Ok(sig),
                None => Err(BindingError::NoFnPointerArgument),
            }
        },
    }
}

/// Resolves the call of the framework function `function` against the type
/// aliases of the generated bindings.
pub fn resolve_binding(function: &str, aliases: &Vec<TypeAlias>) -> (r: Result<ResolvedBinding, BindingError>)
    ensures
        resolves(function@, aliases@, r),
{
    let name = concat("PFN_", to_uppercase(function).as_str());
    let mut i: usize = 0;
    while i < aliases.len()
        invariant
            i <= aliases@.len(),
            name@ == function_pointer_type_name(function@),
            forall|j: int| 0 <= j < i ==> (#[trigger] aliases@[j]).name@ != name@,
        decreases aliases@.len() - i,
    {
        if aliases[i].name == name {
            assert(first_alias_named(aliases@, name@, i as int));
            assert forall|j: int| #[trigger] first_alias_named(aliases@, name@, j) implies j == i by {
                if j < i {
                    assert(aliases@[j].name@ != name@);
                } else if j > i {
                    assert(aliases@[i as int].name@ == name@);
                }
            }
            let sig = signature_of(&aliases[i].aliased)?;
            return resolve_signature(function, sig);
        }
        i += 1;
    }
    Err(BindingError::TypeAliasNotFound { name })
}

} // verus!
