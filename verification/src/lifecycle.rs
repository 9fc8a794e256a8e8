//! What `#[derive(Widget)]` finds in a widget struct: which fields hold
//! managed children, and the lifecycle code it writes for them.

use vstd::prelude::*;

use crate::text::{decimal, format_decimal};

verus! {

/// The shape of a Rust type, as far as the derive reads it.
pub enum TypeExpr {
    /// A path such as `std::option::Option<T>`, by its segments.
    Path(Vec<PathSegment>),
    /// `&T` or `&mut T`.
    Reference { mutable: bool, elem: Box<TypeExpr> },
    /// `[T]`.
    Slice(Box<TypeExpr>),
    /// `[T; N]`.
    Array(Box<TypeExpr>),
    /// `(T)`.
    Paren(Box<TypeExpr>),
    /// A type in an invisible group, as macros produce them.
    Group(Box<TypeExpr>),
    /// Any other type: tuples, function pointers, trait objects and so on.
    Other,
}

/// One segment of a path: its identifier and its arguments.
pub struct PathSegment {
    pub ident: String,
    pub arguments: PathArguments,
}

/// The arguments of a path segment.
pub enum PathArguments {
    /// No arguments, as in `String`.
    Empty,
    /// Arguments in angle brackets, as in `HashMap<K, V>`.
    AngleBracketed(Vec<GenericArgument>),
    /// Arguments in parentheses, as in `Fn(A) -> B`.
    Parenthesized,
}

/// One argument in angle brackets.
pub enum GenericArgument {
    /// A type.
    Type(TypeExpr),
    /// A lifetime, constant, binding or constraint.
    Other,
}

/// How a field's type holds managed children.
#[derive(Debug, PartialEq, Eq)]
pub enum LifecycleWrapper {
    /// Directly a `Managed<T>`.
    Direct,
    /// `Option<T>`.
    Option(Box<LifecycleWrapper>),
    /// `Vec<T>`, `VecDeque<T>`, `LinkedList<T>`, `[T; N]`, `[T]`.
    Sequence(Box<LifecycleWrapper>),
    /// `HashMap<K, V>`, `BTreeMap<K, V>`: the values hold the children.
    MapValues(Box<LifecycleWrapper>),
    /// `&mut T`, `Box<T>`.
    DerefMut(Box<LifecycleWrapper>),
    /// `&T`: a shared reference, through which nothing can be changed.
    ImmutableRef,
}

/// Whether the argument is a type.
pub open spec fn is_type_arg(a: GenericArgument) -> bool {
    a is Type
}

/// The position in `args` of the `n`-th type argument, counting from zero.
pub open spec fn type_arg_position(args: Seq<GenericArgument>, n: nat) -> Option<int>
    decreases args.len(),
{
    if args.len() == 0 {
        None
    } else {
        let prev = type_arg_position(args.drop_last(), n);
        if prev is Some {
            prev
        } else if is_type_arg(args.last()) && type_arg_count(args.drop_last()) == n {
            Some(args.len() - 1)
        } else {
            None
        }
    }
}

/// How many of `args` are types.
pub open spec fn type_arg_count(args: Seq<GenericArgument>) -> nat
    decreases args.len(),
{
    if args.len() == 0 {
        0
    } else {
        type_arg_count(args.drop_last()) + if is_type_arg(args.last()) { 1nat } else { 0nat }
    }
}


/// Whether some argument in angle brackets is a type.
pub open spec fn has_type_arg(args: PathArguments) -> bool {
    match args {
        PathArguments::AngleBracketed(v) => type_arg_count(v@) > 0,
        _ => false,
    }
}

/// Which type argument of a map holds its values: the second; with fewer
/// than two, the only one.
pub open spec fn map_value_index(args: Seq<GenericArgument>) -> nat {
    if type_arg_count(args) >= 2 { 1 } else { 0 }
}

/// The position of a type argument lies among the arguments and holds a type.
pub proof fn type_arg_position_is_type(args: Seq<GenericArgument>, n: nat)
    ensures
        type_arg_position(args, n) matches Some(i) ==> 0 <= i < args.len() && args[i] is Type,
    decreases args.len(),
{
    if args.len() > 0 {
        type_arg_position_is_type(args.drop_last(), n);
    }
}

/// `inner` wrapped in `Option`.
pub open spec fn wrap_option(inner: Option<LifecycleWrapper>) -> Option<LifecycleWrapper> {
    match inner {
        Some(w) => Some(LifecycleWrapper::Option(Box::new(w))),
        None => None,
    }
}

/// `inner` wrapped in a sequence.
pub open spec fn wrap_sequence(inner: Option<LifecycleWrapper>) -> Option<LifecycleWrapper> {
    match inner {
        Some(w) => Some(LifecycleWrapper::Sequence(Box::new(w))),
        None => None,
    }
}

/// `inner` wrapped in a map's values.
pub open spec fn wrap_map(inner: Option<LifecycleWrapper>) -> Option<LifecycleWrapper> {
    match inner {
        Some(w) => Some(LifecycleWrapper::MapValues(Box::new(w))),
        None => None,
    }
}

/// `inner` behind a mutable reference or a box.
pub open spec fn wrap_deref_mut(inner: Option<LifecycleWrapper>) -> Option<LifecycleWrapper> {
    match inner {
        Some(w) => Some(LifecycleWrapper::DerefMut(Box::new(w))),
        None => None,
    }
}

/// How a container named `name` holds children, given how its element or
/// value type does.
pub open spec fn inspect_container(name: Seq<char>, inner: Option<LifecycleWrapper>) -> Option<LifecycleWrapper> {
    if name == "Option"@ {
        wrap_option(inner)
    } else if name == "Box"@ {
        wrap_deref_mut(inner)
    } else if name == "HashMap"@ || name == "BTreeMap"@ {
        wrap_map(inner)
    } else {
        wrap_sequence(inner)
    }
}

/// Whether a path segment named `name` is a container that the derive
/// looks into.
pub open spec fn is_container(name: Seq<char>) -> bool {
    name == "Option"@ || name == "Vec"@ || name == "VecDeque"@ || name == "LinkedList"@ || name == "Box"@
        || name == "HashMap"@ || name == "BTreeMap"@
}

/// Which type argument of the container named `name` holds the children.
pub open spec fn container_arg_index(name: Seq<char>, args: Seq<GenericArgument>) -> nat {
    if name == "HashMap"@ || name == "BTreeMap"@ { map_value_index(args) } else { 0 }
}

/// How a type holds managed children, if it does.
///
/// A path is read by its last segment: `Managed` with a type argument is a
/// child; `Option`, `Vec`, `VecDeque`, `LinkedList` and `Box` hold children
/// where their first type argument does; `HashMap` and `BTreeMap` where
/// their value type does. A mutable reference holds what its referent
/// holds; a shared reference to a type that holds children is recognised
/// but changes nothing. Slices and arrays hold what their elements hold;
/// parentheses and groups are looked through. Anything else holds none.
pub open spec fn inspect(t: TypeExpr) -> Option<LifecycleWrapper>
    decreases t,
{
    match t {
        TypeExpr::Path(segs) => if segs@.len() == 0 {
            None
        } else {
            let seg = segs@[segs@.len() - 1];
            let name = seg.ident@;
            if name == "Managed"@ {
                if has_type_arg(seg.arguments) { Some(LifecycleWrapper::Direct) } else { None }
            } else if is_container(name) {
                match seg.arguments {
                    PathArguments::AngleBracketed(v) => {
                        let n = container_arg_index(name, v@);
                        match type_arg_position(v@, n) {
                            Some(i) => {
                                proof {
                                    type_arg_position_is_type(v@, n);
                                    assert(decreases_to!(segs => segs@[segs@.len() - 1]));
                                    assert(decreases_to!(seg => seg.arguments));
                                    assert(decreases_to!(v => v@[i]));
                                }
                                match v@[i] {
                                    GenericArgument::Type(a) => inspect_container(name, inspect(a)),
                                    GenericArgument::Other => None,
                                }
                            },
                            None => None,
                        }
                    },
                    _ => None,
                }
            } else {
                None
            }
        },
        TypeExpr::Reference { mutable, elem } => match inspect(*elem) {
            Some(w) => if mutable {
                Some(LifecycleWrapper::DerefMut(Box::new(w)))
            } else {
                Some(LifecycleWrapper::ImmutableRef)
            },
            None => None,
        },
        TypeExpr::Slice(elem) => wrap_sequence(inspect(*elem)),
        TypeExpr::Array(elem) => wrap_sequence(inspect(*elem)),
        TypeExpr::Paren(elem) => inspect(*elem),
        TypeExpr::Group(elem) => inspect(*elem),
        TypeExpr::Other => None,
    }
}

/// The type held by an argument (`Other` for an argument that is none).
pub open spec fn arg_type(a: GenericArgument) -> TypeExpr {
    match a {
        GenericArgument::Type(t) => t,
        GenericArgument::Other => TypeExpr::Other,
    }
}

/// The `index`-th type argument of `args`, as [`extract_generic_type`]
/// finds it.
pub open spec fn nth_type_arg(args: PathArguments, index: nat) -> Option<TypeExpr> {
    match args {
        PathArguments::AngleBracketed(v) => match type_arg_position(v@, index) {
            Some(i) => Some(arg_type(v@[i])),
            None => None,
        },
        _ => None,
    }
}

/// The position of the first type argument that holds managed children.
pub open spec fn first_matching_position(args: Seq<GenericArgument>) -> Option<int>
    decreases args.len(),
{
    if args.len() == 0 {
        None
    } else {
        let prev = first_matching_position(args.drop_last());
        if prev is Some {
            prev
        } else if is_type_arg(args.last()) && inspect(arg_type(args.last())) is Some {
            Some(args.len() - 1)
        } else {
            None
        }
    }
}

/// Extending the arguments keeps a position found among the first ones.
proof fn type_arg_position_extends(args: Seq<GenericArgument>, k: int, n: nat)
    requires
        0 <= k <= args.len(),
        type_arg_position(args.take(k), n) is Some,
    ensures
        type_arg_position(args, n) == type_arg_position(args.take(k), n),
    decreases args.len() - k,
{
    if k < args.len() {
        assert(args.take(k + 1).drop_last() =~= args.take(k));
        type_arg_position_extends(args, k + 1, n);
    } else {
        assert(args.take(k) =~= args);
    }
}

/// Extending the arguments keeps the first matching position found among
/// the first ones.
proof fn first_matching_extends(args: Seq<GenericArgument>, k: int)
    requires
        0 <= k <= args.len(),
        first_matching_position(args.take(k)) is Some,
    ensures
        first_matching_position(args) == first_matching_position(args.take(k)),
    decreases args.len() - k,
{
    if k < args.len() {
        assert(args.take(k + 1).drop_last() =~= args.take(k));
        first_matching_extends(args, k + 1);
    } else {
        assert(args.take(k) =~= args);
    }
}

/// With at most one type argument, the first matching one is the only one,
/// where it holds children.
proof fn first_matching_single(args: Seq<GenericArgument>)
    requires
        type_arg_count(args) <= 1,
    ensures
        type_arg_count(args) == 0 ==> first_matching_position(args) is None,
        type_arg_count(args) == 1 ==> match type_arg_position(args, 0) {
            Some(p) => first_matching_position(args) == if inspect(arg_type(args[p])) is Some {
                Some(p)
            } else {
                None::<int>
            },
            None => false,
        },
    decreases args.len(),
{
    if args.len() > 0 {
        let init = args.drop_last();
        first_matching_single(init);
        type_arg_position_is_type(init, 0);
        type_arg_position_counted(init, 0);
        if let Some(p) = type_arg_position(init, 0) {
            assert(args[p] == init[p]);
        }
    }
}

/// The value type that a map's arguments give, looked up as the derive
/// looks it up (the second type argument, else the first that holds
/// children), holds children exactly as [`inspect`] finds.
proof fn map_lookup_agrees(args: PathArguments)
    ensures
        args matches PathArguments::AngleBracketed(v) ==> {
            let pos = type_arg_position(v@, map_value_index(v@));
            &&& type_arg_position(v@, 1) is Some ==> pos == type_arg_position(v@, 1)
            &&& type_arg_position(v@, 1) is None ==> match pos {
                Some(p) => first_matching_position(v@) == if inspect(arg_type(v@[p])) is Some {
                    Some(p)
                } else {
                    None::<int>
                },
                None => first_matching_position(v@) is None,
            }
        },
{
    if let PathArguments::AngleBracketed(v) = args {
        type_arg_position_counted(v@, 1);
        type_arg_position_counted(v@, 0);
        type_arg_position_found(v@, 1);
        if type_arg_count(v@) <= 1 {
            first_matching_single(v@);
        }
    }
}

/// Every index below the count of type arguments is found.
proof fn type_arg_position_found(args: Seq<GenericArgument>, n: nat)
    ensures
        n < type_arg_count(args) ==> type_arg_position(args, n) is Some,
    decreases args.len(),
{
    if args.len() > 0 {
        type_arg_position_found(args.drop_last(), n);
    }
}

/// A type argument is found only at an index below the count of them.
proof fn type_arg_position_counted(args: Seq<GenericArgument>, n: nat)
    ensures
        type_arg_position(args, n) is Some ==> n < type_arg_count(args),
    decreases args.len(),
{
    if args.len() > 0 {
        type_arg_position_counted(args.drop_last(), n);
    }
}

/// The arguments of a path's last segment, and each type argument among
/// them, are smaller than the path.
proof fn last_segment_decreases(segs: Vec<PathSegment>, n: nat)
    requires
        segs@.len() > 0,
    ensures
        decreases_to!(TypeExpr::Path(segs) => segs@[segs@.len() - 1].arguments),
        nth_type_arg(segs@[segs@.len() - 1].arguments, n) matches Some(t) ==> decreases_to!(TypeExpr::Path(segs) => t),
{
    let t = TypeExpr::Path(segs);
    let seg = segs@[segs@.len() - 1];
    assert(decreases_to!(t => t->Path_0));
    assert(decreases_to!(segs => segs@));
    assert(decreases_to!(segs@ => segs@[segs@.len() - 1]));
    assert(decreases_to!(seg => seg.arguments));
    if let PathArguments::AngleBracketed(v) = seg.arguments {
        type_arg_position_is_type(v@, n);
        if let Some(i) = type_arg_position(v@, n) {
            assert(decreases_to!(seg.arguments => seg.arguments->AngleBracketed_0));
            assert(decreases_to!(v => v@));
            assert(decreases_to!(v@ => v@[i]));
        }
    }
}

/// The first matching type argument of a path's last segment is smaller
/// than the path.
proof fn first_matching_decreases(segs: Vec<PathSegment>)
    requires
        segs@.len() > 0,
    ensures
        segs@[segs@.len() - 1].arguments matches PathArguments::AngleBracketed(v) ==> (
            first_matching_position(v@) matches Some(i) ==> 0 <= i < v@.len() && v@[i] is Type
                && decreases_to!(TypeExpr::Path(segs) => arg_type(v@[i]))),
{
    let t = TypeExpr::Path(segs);
    let seg = segs@[segs@.len() - 1];
    assert(decreases_to!(t => t->Path_0));
    assert(decreases_to!(segs => segs@));
    assert(decreases_to!(segs@ => segs@[segs@.len() - 1]));
    assert(decreases_to!(seg => seg.arguments));
    if let PathArguments::AngleBracketed(v) = seg.arguments {
        first_matching_in_range(v@);
        if let Some(i) = first_matching_position(v@) {
            assert(decreases_to!(seg.arguments => seg.arguments->AngleBracketed_0));
            assert(decreases_to!(v => v@));
            assert(decreases_to!(v@ => v@[i]));
        }
    }
}

/// The first matching position lies among the arguments and holds a type.
proof fn first_matching_in_range(args: Seq<GenericArgument>)
    ensures
        first_matching_position(args) matches Some(i) ==> 0 <= i < args.len() && args[i] is Type,
    decreases args.len(),
{
    if args.len() > 0 {
        first_matching_in_range(args.drop_last());
    }
}

/// The `index`-th type argument of a path segment's arguments.
pub fn extract_generic_type(args: &PathArguments, index: usize) -> (r: Option<&TypeExpr>)
    ensures
        match nth_type_arg(*args, index as nat) {
            Some(t) => r matches Some(u) && *u == t,
            None => r is None,
        },
{
    match args {
        PathArguments::AngleBracketed(v) => {
            let mut count: usize = 0;
            let mut j: usize = 0;
            while j < v.len()
                invariant
                    *args == PathArguments::AngleBracketed(*v),
                    j <= v@.len(),
                    count == type_arg_count(v@.take(j as int)),
                    count <= j,
                    type_arg_position(v@.take(j as int), index as nat) is None,
                decreases v@.len() - j,
            {
                assert(v@.take(j + 1).drop_last() =~= v@.take(j as int));
                match &v[j] {
                    GenericArgument::Type(t) => {
                        if count == index {
                            proof {
                                assert(v@.take(j + 1).last() == v@[j as int]);
                                assert(type_arg_position(v@.take(j + 1), index as nat) == Some(j as int));
                                type_arg_position_extends(v@, j + 1, index as nat);
                                assert(type_arg_position(v@, index as nat) == Some(j as int));
                                assert(v@[j as int] == GenericArgument::Type(*t));
                                assert(nth_type_arg(*args, index as nat) == Some(*t));
                            }
                            return Some(t);
                        }
                        count = count + 1;
                    },
                    GenericArgument::Other => {},
                }
                j = j + 1;
            }
            assert(v@.take(j as int) =~= v@);
            None
        },
        _ => None,
    }
}

/// The first type argument of a path segment's arguments that holds
/// managed children.
pub fn extract_first_matching_generic_type(args: &PathArguments) -> (r: Option<&TypeExpr>)
    ensures
        match *args {
            PathArguments::AngleBracketed(v) => match first_matching_position(v@) {
                Some(i) => r matches Some(u) && *u == arg_type(v@[i]),
                None => r is None,
            },
            _ => r is None,
        },
    decreases *args, 1nat,
{
    match args {
        PathArguments::AngleBracketed(v) => {
            let mut j: usize = 0;
            while j < v.len()
                invariant
                    *args == PathArguments::AngleBracketed(*v),
                    j <= v@.len(),
                    first_matching_position(v@.take(j as int)) is None,
                decreases v@.len() - j,
            {
                assert(v@.take(j + 1).drop_last() =~= v@.take(j as int));
                match &v[j] {
                    GenericArgument::Type(t) => {
                        proof {
                            assert(decreases_to!(*args => (*args)->AngleBracketed_0));
                            assert(decreases_to!(*v => v@));
                            assert(decreases_to!(v@ => v@[j as int]));
                        }
                        if inspect_type(t).is_some() {
                            proof {
                                assert(v@.take(j + 1).last() == v@[j as int]);
                                first_matching_extends(v@, j + 1);
                            }
                            return Some(t);
                        }
                    },
                    GenericArgument::Other => {},
                }
                j = j + 1;
            }
            assert(v@.take(j as int) =~= v@);
            None
        },
        _ => None,
    }
}

/// Whether `s` reads `lit`.
fn name_is(s: &String, lit: &str) -> (r: bool)
    ensures
        r == (s@ == lit@),
{
    let owned = lit.to_owned();
    *s == owned
}

/// Whether some argument is a type.
fn any_type_arg(args: &PathArguments) -> (r: bool)
    ensures
        r == has_type_arg(*args),
{
    match args {
        PathArguments::AngleBracketed(v) => {
            let mut j: usize = 0;
            while j < v.len()
                invariant
                    *args == PathArguments::AngleBracketed(*v),
                    j <= v@.len(),
                    type_arg_count(v@.take(j as int)) == 0,
                decreases v@.len() - j,
            {
                assert(v@.take(j + 1).drop_last() =~= v@.take(j as int));
                if let GenericArgument::Type(_) = &v[j] {
                    proof {
                        assert(v@.take(j + 1).last() == v@[j as int]);
                        type_arg_count_grows(v@, j + 1);
                    }
                    return true;
                }
                j = j + 1;
            }
            assert(v@.take(j as int) =~= v@);
            false
        },
        _ => false,
    }
}

/// The count of type arguments does not shrink as arguments are added.
proof fn type_arg_count_grows(args: Seq<GenericArgument>, k: int)
    requires
        0 <= k <= args.len(),
    ensures
        type_arg_count(args.take(k)) <= type_arg_count(args),
    decreases args.len() - k,
{
    if k < args.len() {
        assert(args.take(k + 1).drop_last() =~= args.take(k));
        type_arg_count_grows(args, k + 1);
    } else {
        assert(args.take(k) =~= args);
    }
}

/// The names the derive looks for are different from one another.
proof fn type_names_distinct()
    ensures
        "Managed"@ != "Option"@, "Managed"@ != "Vec"@, "Managed"@ != "VecDeque"@,
        "Managed"@ != "LinkedList"@, "Managed"@ != "HashMap"@, "Managed"@ != "BTreeMap"@,
        "Managed"@ != "Box"@,
        "Option"@ != "Vec"@, "Option"@ != "VecDeque"@, "Option"@ != "LinkedList"@,
        "Option"@ != "HashMap"@, "Option"@ != "BTreeMap"@, "Option"@ != "Box"@,
        "Vec"@ != "VecDeque"@, "Vec"@ != "LinkedList"@, "Vec"@ != "HashMap"@,
        "Vec"@ != "BTreeMap"@, "Vec"@ != "Box"@,
        "VecDeque"@ != "LinkedList"@, "VecDeque"@ != "HashMap"@, "VecDeque"@ != "BTreeMap"@,
        "VecDeque"@ != "Box"@,
        "LinkedList"@ != "HashMap"@, "LinkedList"@ != "BTreeMap"@, "LinkedList"@ != "Box"@,
        "HashMap"@ != "BTreeMap"@, "HashMap"@ != "Box"@,
        "BTreeMap"@ != "Box"@,
{
    reveal_strlit("Managed");
    reveal_strlit("Option");
    reveal_strlit("Vec");
    reveal_strlit("VecDeque");
    reveal_strlit("LinkedList");
    reveal_strlit("HashMap");
    reveal_strlit("BTreeMap");
    reveal_strlit("Box");
    assert("Managed"@.len() == 7 && "Managed"@[0] == 'M');
    assert("Option"@.len() == 6);
    assert("Vec"@.len() == 3 && "Vec"@[0] == 'V');
    assert("VecDeque"@.len() == 8 && "VecDeque"@[0] == 'V');
    assert("LinkedList"@.len() == 10);
    assert("HashMap"@.len() == 7 && "HashMap"@[0] == 'H');
    assert("BTreeMap"@.len() == 8 && "BTreeMap"@[0] == 'B');
    assert("Box"@.len() == 3 && "Box"@[0] == 'B');
}

/// How a type holds managed children, if it does (see [`inspect`]).
pub fn inspect_type(ty: &TypeExpr) -> (r: Option<LifecycleWrapper>)
    ensures
        r == inspect(*ty),
    decreases *ty, 0nat,
{
    match ty {
        TypeExpr::Path(segs) => {
            if segs.len() == 0 {
                return None;
            }
            let seg = &segs[segs.len() - 1];
            proof {
                type_names_distinct();
                last_segment_decreases(*segs, 0);
                last_segment_decreases(*segs, 1);
                first_matching_decreases(*segs);
            }
            let ident = &seg.ident;
            if name_is(ident, "Managed") {
                if any_type_arg(&seg.arguments) {
                    Some(LifecycleWrapper::Direct)
                } else {
                    None
                }
            } else if name_is(ident, "Option") {
                let inner = match extract_generic_type(&seg.arguments, 0) {
                    Some(t) => t,
                    None => { return None; },
                };
                match inspect_type(inner) {
                    Some(w) => Some(LifecycleWrapper::Option(Box::new(w))),
                    None => None,
                }
            } else if name_is(ident, "Vec") || name_is(ident, "VecDeque") || name_is(ident, "LinkedList") {
                let inner = match extract_generic_type(&seg.arguments, 0) {
                    Some(t) => t,
                    None => { return None; },
                };
                match inspect_type(inner) {
                    Some(w) => Some(LifecycleWrapper::Sequence(Box::new(w))),
                    None => None,
                }
            } else if name_is(ident, "HashMap") || name_is(ident, "BTreeMap") {
                let found = match extract_generic_type(&seg.arguments, 1) {
                    Some(t) => Some(t),
                    None => extract_first_matching_generic_type(&seg.arguments),
                };
                proof {
                    map_lookup_agrees(seg.arguments);
                }
                let inner = match found {
                    Some(t) => t,
                    None => { return None; },
                };
                match inspect_type(inner) {
                    Some(w) => Some(LifecycleWrapper::MapValues(Box::new(w))),
                    None => None,
                }
            } else if name_is(ident, "Box") {
                let inner = match extract_generic_type(&seg.arguments, 0) {
                    Some(t) => t,
                    None => { return None; },
                };
                match inspect_type(inner) {
                    Some(w) => Some(LifecycleWrapper::DerefMut(Box::new(w))),
                    None => None,
                }
            } else {
                None
            }
        },
        TypeExpr::Reference { mutable, elem } => {
            let inner = match inspect_type(elem) {
                Some(w) => w,
                None => { return None; },
            };
            if *mutable {
                Some(LifecycleWrapper::DerefMut(Box::new(inner)))
            } else {
                Some(LifecycleWrapper::ImmutableRef)
            }
        },
        TypeExpr::Slice(elem) => match inspect_type(elem) {
            Some(w) => Some(LifecycleWrapper::Sequence(Box::new(w))),
            None => None,
        },
        TypeExpr::Array(elem) => match inspect_type(elem) {
            Some(w) => Some(LifecycleWrapper::Sequence(Box::new(w))),
            None => None,
        },
        TypeExpr::Paren(elem) => inspect_type(elem),
        TypeExpr::Group(elem) => inspect_type(elem),
        TypeExpr::Other => None,
    }
}

/// A lifecycle step that the derive writes for each managed child.
#[derive(Clone, Copy, Debug, PartialEq, Eq, Structural)]
pub enum Action {
    /// Process queued messages and tick (`update_route_error`).
    Tick,
    /// Initialize (`init`).
    Init,
    /// Shut down (`shutdown`).
    Shutdown,
}

/// The name of the method of `Managed` that performs an action.
pub open spec fn method_text(a: Action) -> Seq<char> {
    match a {
        Action::Tick => "update_route_error"@,
        Action::Init => "init"@,
        Action::Shutdown => "shutdown"@,
    }
}

impl Action {
    /// The name of the method of `Managed` that performs the action.
    pub fn method_ident(self) -> (r: &'static str)
        ensures
            r@ == method_text(self),
    {
        match self {
            Action::Tick => "update_route_error",
            Action::Init => "init",
            Action::Shutdown => "shutdown",
        }
    }
}

/// The name of the loop or binding variable at a nesting depth.
pub open spec fn child_var(depth: nat) -> Seq<char> {
    "_child_"@ + decimal(depth)
}

/// How many bindings the code for a wrapper introduces, one inside another.
pub open spec fn nesting(w: LifecycleWrapper) -> nat
    decreases w,
{
    match w {
        LifecycleWrapper::Direct => 0,
        LifecycleWrapper::Option(inner) => nesting(*inner) + 1,
        LifecycleWrapper::Sequence(inner) => nesting(*inner) + 1,
        LifecycleWrapper::MapValues(inner) => nesting(*inner) + 1,
        LifecycleWrapper::DerefMut(inner) => nesting(*inner),
        LifecycleWrapper::ImmutableRef => 0,
    }
}

/// The Rust statements that perform `a` on every managed child reached
/// through `w` from the place `expr`, binding children at `depth` and
/// deeper; nothing where `w` reaches them through a shared reference.
///
/// A child is called directly; an `Option` is opened with `if let`; a
/// sequence is walked with `iter_mut` and a map's values with
/// `values_mut`; a mutable reference or box is looked through in
/// parentheses.
pub open spec fn action_code(w: LifecycleWrapper, expr: Seq<char>, a: Action, depth: nat) -> Option<Seq<char>>
    decreases w,
{
    match w {
        LifecycleWrapper::Direct => Some(expr + "."@ + method_text(a) + "();"@),
        LifecycleWrapper::Option(inner) => match action_code(*inner, child_var(depth), a, depth + 1) {
            Some(code) => Some("if let Some("@ + child_var(depth) + ") = ("@ + expr + ").as_mut() { "@ + code + " }"@),
            None => None,
        },
        LifecycleWrapper::Sequence(inner) => match action_code(*inner, child_var(depth), a, depth + 1) {
            Some(code) => Some("for "@ + child_var(depth) + " in ("@ + expr + ").iter_mut() { "@ + code + " }"@),
            None => None,
        },
        LifecycleWrapper::MapValues(inner) => match action_code(*inner, child_var(depth), a, depth + 1) {
            Some(code) => Some("for "@ + child_var(depth) + " in ("@ + expr + ").values_mut() { "@ + code + " }"@),
            None => None,
        },
        LifecycleWrapper::DerefMut(inner) => action_code(*inner, "("@ + expr + ")"@, a, depth),
        LifecycleWrapper::ImmutableRef => None,
    }
}

/// The name of the binding variable at a nesting depth.
fn child_var_name(depth: usize) -> (r: String)
    ensures
        r@ == child_var(depth as nat),
{
    let digits = format_decimal(depth as u64);
    "_child_".to_owned().concat(digits.as_str())
}

/// Writes the statements that perform `action` on the managed children
/// reached through `wrapper` from the place `expr` (see [`action_code`]).
pub fn generate_action_code(wrapper: &LifecycleWrapper, expr: &str, action: Action, depth: usize) -> (r: Option<String>)
    requires
        depth + nesting(*wrapper) <= usize::MAX,
    ensures
        match action_code(*wrapper, expr@, action, depth as nat) {
            Some(code) => r matches Some(s) && s@ == code,
            None => r is None,
        },
    decreases *wrapper,
{
    match wrapper {
        LifecycleWrapper::Direct => {
            let method = action.method_ident();
            let s = expr.to_owned().concat(".").concat(method).concat("();");
            Some(s)
        },
        LifecycleWrapper::Option(inner) => {
            let var = child_var_name(depth);
            let code = match generate_action_code(inner, var.as_str(), action, depth + 1) {
                Some(c) => c,
                None => { return None; },
            };
            let s = "if let Some(".to_owned().concat(var.as_str()).concat(") = (").concat(expr)
                .concat(").as_mut() { ").concat(code.as_str()).concat(" }");
            Some(s)
        },
        LifecycleWrapper::Sequence(inner) => {
            let var = child_var_name(depth);
            let code = match generate_action_code(inner, var.as_str(), action, depth + 1) {
                Some(c) => c,
                None => { return None; },
            };
            let s = "for ".to_owned().concat(var.as_str()).concat(" in (").concat(expr)
                .concat(").iter_mut() { ").concat(code.as_str()).concat(" }");
            Some(s)
        },
        LifecycleWrapper::MapValues(inner) => {
            let var = child_var_name(depth);
            let code = match generate_action_code(inner, var.as_str(), action, depth + 1) {
                Some(c) => c,
                None => { return None; },
            };
            let s = "for ".to_owned().concat(var.as_str()).concat(" in (").concat(expr)
                .concat(").values_mut() { ").concat(code.as_str()).concat(" }");
            Some(s)
        },
        LifecycleWrapper::DerefMut(inner) => {
            let wrapped = "(".to_owned().concat(expr).concat(")");
            generate_action_code(inner, wrapped.as_str(), action, depth)
        },
        LifecycleWrapper::ImmutableRef => None,
    }
}

/// A field of a struct: its name, if it has one, and its type.
pub struct FieldDef {
    pub name: Option<String>,
    pub ty: TypeExpr,
}

/// The fields of a struct.
pub enum StructFields {
    /// `struct S { a: A, b: B }`.
    Named(Vec<FieldDef>),
    /// `struct S(A, B);`.
    Unnamed,
    /// `struct S;`.
    Unit,
}

/// The item a derive is applied to.
pub enum DeriveTarget {
    /// A struct.
    Struct(StructFields),
    /// An enum.
    Enum,
    /// A union.
    Union,
}

/// Why the derive cannot be applied.
#[derive(Clone, Copy, Debug, PartialEq, Eq, Structural)]
pub enum DeriveError {
    /// The item is not a struct.
    NotAStruct,
}

/// The message of the compile error for an error.
pub open spec fn derive_error_text(e: DeriveError) -> Seq<char> {
    match e {
        DeriveError::NotAStruct => "`Widget` can only be derived on structs"@,
    }
}

impl DeriveError {
    /// The message of the compile error.
    pub fn message(&self) -> (r: &'static str)
        ensures
            r@ == derive_error_text(*self),
    {
        match self {
            DeriveError::NotAStruct => "`Widget` can only be derived on structs",
        }
    }
}

/// The statement for one field, followed by a space: nothing for a field
/// without a name, one that holds no managed children, or one that holds
/// them behind a shared reference.
pub open spec fn field_stmt(f: FieldDef, a: Action) -> Seq<char> {
    match (inspect(f.ty), f.name) {
        (Some(w), Some(name)) => match action_code(w, "self."@ + name@, a, 0) {
            Some(code) => code + " "@,
            None => Seq::empty(),
        },
        _ => Seq::empty(),
    }
}

/// The statements for all fields, in declaration order.
pub open spec fn field_stmts(fields: Seq<FieldDef>, a: Action) -> Seq<char>
    decreases fields.len(),
{
    if fields.len() == 0 {
        Seq::empty()
    } else {
        field_stmts(fields.drop_last(), a) + field_stmt(fields.last(), a)
    }
}

/// Whether the code for every field fits the binding depths that a `usize`
/// can count.
pub open spec fn depths_fit(fields: Seq<FieldDef>) -> bool {
    forall|i: int| 0 <= i < fields.len() ==> (#[trigger] inspect(fields[i].ty) matches Some(w) ==> nesting(w) <= usize::MAX)
}

/// The body of the `AutoLifecycle` implementation for named fields: the
/// three lifecycle methods, each performing its step on every field's
/// managed children in declaration order.
pub open spec fn lifecycle_methods(fields: Seq<FieldDef>) -> Seq<char> {
    "fn tick_children_auto(&mut self) { "@ + field_stmts(fields, Action::Tick)
        + "} fn init_children_auto(&mut self) { "@ + field_stmts(fields, Action::Init)
        + "} fn shutdown_children_auto(&mut self) { "@ + field_stmts(fields, Action::Shutdown) + "}"@
}

/// The body that `#[derive(Widget)]` gives the `AutoLifecycle`
/// implementation of `target`: the lifecycle methods for a struct with
/// named fields; the same methods with nothing to do for a tuple or unit
/// struct, which has no named children; an error for anything but a struct.
pub open spec fn derive_body(target: DeriveTarget) -> Result<Seq<char>, DeriveError> {
    match target {
        DeriveTarget::Struct(StructFields::Named(fields)) => Ok(lifecycle_methods(fields@)),
        DeriveTarget::Struct(_) => Ok(lifecycle_methods(Seq::empty())),
        _ => Err(DeriveError::NotAStruct),
    }
}

/// Appends the statement for one field to each of the three method bodies.
fn push_field_stmts(f: &FieldDef, tick: &mut String, init: &mut String, shutdown: &mut String)
    requires
        inspect(f.ty) matches Some(w) ==> nesting(w) <= usize::MAX,
    ensures
        final(tick)@ == old(tick)@ + field_stmt(*f, Action::Tick),
        final(init)@ == old(init)@ + field_stmt(*f, Action::Init),
        final(shutdown)@ == old(shutdown)@ + field_stmt(*f, Action::Shutdown),
{
    let wrapper = match inspect_type(&f.ty) {
        Some(w) => w,
        None => {
            assert(tick@ =~= old(tick)@ + Seq::<char>::empty());
            assert(init@ =~= old(init)@ + Seq::<char>::empty());
            assert(shutdown@ =~= old(shutdown)@ + Seq::<char>::empty());
            return;
        },
    };
    let name = match &f.name {
        Some(n) => n,
        None => {
            assert(tick@ =~= old(tick)@ + Seq::<char>::empty());
            assert(init@ =~= old(init)@ + Seq::<char>::empty());
            assert(shutdown@ =~= old(shutdown)@ + Seq::<char>::empty());
            return;
        },
    };
    let expr = "self.".to_owned().concat(name.as_str());
    match generate_action_code(&wrapper, expr.as_str(), Action::Tick, 0) {
        Some(code) => {
            tick.append(code.as_str());
            tick.append(" ");
        },
        None => {},
    }
    match generate_action_code(&wrapper, expr.as_str(), Action::Init, 0) {
        Some(code) => {
            init.append(code.as_str());
            init.append(" ");
        },
        None => {},
    }
    match generate_action_code(&wrapper, expr.as_str(), Action::Shutdown, 0) {
        Some(code) => {
            shutdown.append(code.as_str());
            shutdown.append(" ");
        },
        None => {},
    }
    assert(tick@ =~= old(tick)@ + field_stmt(*f, Action::Tick));
    assert(init@ =~= old(init)@ + field_stmt(*f, Action::Init));
    assert(shutdown@ =~= old(shutdown)@ + field_stmt(*f, Action::Shutdown));
}

/// The body of the `AutoLifecycle` implementation that `#[derive(Widget)]`
/// writes for `target` (see [`derive_body`]).
pub fn derive_children(target: &DeriveTarget) -> (r: Result<String, DeriveError>)
    requires
        target matches DeriveTarget::Struct(StructFields::Named(fields)) ==> depths_fit(fields@),
    ensures
        match derive_body(*target) {
            Ok(body) => r matches Ok(s) && s@ == body,
            Err(e) => r == Err::<String, DeriveError>(e),
        },
{
    match target {
        DeriveTarget::Struct(StructFields::Named(fields)) => Ok(lifecycle_body(fields)),
        DeriveTarget::Struct(_) => {
            let none: Vec<FieldDef> = Vec::new();
            Ok(lifecycle_body(&none))
        },
        _ => Err(DeriveError::NotAStruct),
    }
}

/// The three lifecycle methods for `fields` (see [`lifecycle_methods`]).
fn lifecycle_body(fields: &Vec<FieldDef>) -> (r: String)
    requires
        depths_fit(fields@),
    ensures
        r@ == lifecycle_methods(fields@),
{
    let mut tick = String::new();
    let mut init = String::new();
    let mut shutdown = String::new();
    let mut i: usize = 0;
    while i < fields.len()
        invariant
            i <= fields@.len(),
            depths_fit(fields@),
            tick@ == field_stmts(fields@.take(i as int), Action::Tick),
            init@ == field_stmts(fields@.take(i as int), Action::Init),
            shutdown@ == field_stmts(fields@.take(i as int), Action::Shutdown),
        decreases fields@.len() - i,
    {
        assert(fields@.take(i + 1).drop_last() =~= fields@.take(i as int));
        assert(fields@.take(i + 1).last() == fields@[i as int]);
        assert(inspect(fields@[i as int].ty) matches Some(w) ==> nesting(w) <= usize::MAX);
        push_field_stmts(&fields[i], &mut tick, &mut init, &mut shutdown);
        i = i + 1;
    }
    assert(fields@.take(i as int) =~= fields@);
    "fn tick_children_auto(&mut self) { ".to_owned().concat(tick.as_str())
        .concat("} fn init_children_auto(&mut self) { ").concat(init.as_str())
        .concat("} fn shutdown_children_auto(&mut self) { ").concat(shutdown.as_str()).concat("}")
}

/// Fields behind a shared reference are ignored: nothing can be changed
/// through them, so no lifecycle statement is written for them.
pub proof fn shared_references_are_skipped(f: FieldDef, a: Action)
    requires
        f.ty matches TypeExpr::Reference { mutable, .. } && !mutable,
    ensures
        field_stmt(f, a) == Seq::<char>::empty(),
{
}

/// A named field that is directly a managed child gets one call of the
/// action's method on it.
pub proof fn direct_children_are_called(f: FieldDef, a: Action)
    requires
        inspect(f.ty) == Some(LifecycleWrapper::Direct),
        f.name is Some,
    ensures
        field_stmt(f, a) == "self."@ + f.name->0@ + "."@ + method_text(a) + "();"@ + " "@,
{
}

} // verus!
