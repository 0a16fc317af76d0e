use vstd::prelude::*;
use vstd::pervasive::unreached;

verus! {

/// The mathematical value of an identity key: the wrapped value together
/// with the tag of the key type it came from. Two identities are equal
/// exactly when both the tag and the value agree, so keys of different
/// types never collide even when the wrapped values would compare equal.
pub enum IdView {
    Usize(int),
    U8(int),
    I32(int),
    U64(int),
    I64(int),
    Text(Seq<char>),
}

/// The wrapped value of an identity: a closed union of the key types that
/// can address ports and cables. Callers pick the variant through the
/// [`IdKey`] impl of their key type, so `Id::new(42_usize)` and
/// `Id::new(42_u8)` produce distinct identities.
#[derive(Debug, Hash)]
pub enum IdValue {
    Usize(usize),
    U8(u8),
    I32(i32),
    U64(u64),
    I64(i64),
    Text(String),
}

impl View for IdValue {
    type V = IdView;

    open spec fn view(&self) -> IdView {
        match self {
            IdValue::Usize(v) => IdView::Usize(*v as int),
            IdValue::U8(v) => IdView::U8(*v as int),
            IdValue::I32(v) => IdView::I32(*v as int),
            IdValue::U64(v) => IdView::U64(*v as int),
            IdValue::I64(v) => IdView::I64(*v as int),
            IdValue::Text(s) => IdView::Text(s@),
        }
    }
}

/// A type that can serve as an identity key. The widgets accept any such
/// type where the caller names a port or a cable.
pub trait IdKey: Sized {
    /// The mathematical value of this key, tagged with its key type.
    spec fn key_view(&self) -> IdView;

    /// Whether a view carries this key type's tag.
    spec fn kind_matches(v: IdView) -> bool;

    /// Wraps the key into the identity union.
    fn wrap(self) -> (r: IdValue)
        ensures
            r@ == self.key_view(),
            Self::kind_matches(self.key_view()),
    ;

    /// Reads the key back out of the identity union, if the wrapped value
    /// is of this key type.
    fn unwrap_ref(v: &IdValue) -> (r: Option<&Self>)
        ensures
            (match r {
                Some(t) => t.key_view() == v@ && Self::kind_matches(v@),
                None => !Self::kind_matches(v@),
            }),
    ;
}

impl IdKey for usize {
    open spec fn key_view(&self) -> IdView {
        IdView::Usize(*self as int)
    }

    open spec fn kind_matches(v: IdView) -> bool {
        v is Usize
    }

    fn wrap(self) -> (r: IdValue) {
        IdValue::Usize(self)
    }

    fn unwrap_ref(v: &IdValue) -> (r: Option<&Self>) {
        match v {
            IdValue::Usize(t) => Some(t),
            _ => None,
        }
    }
}

impl IdKey for u8 {
    open spec fn key_view(&self) -> IdView {
        IdView::U8(*self as int)
    }

    open spec fn kind_matches(v: IdView) -> bool {
        v is U8
    }

    fn wrap(self) -> (r: IdValue) {
        IdValue::U8(self)
    }

    fn unwrap_ref(v: &IdValue) -> (r: Option<&Self>) {
        match v {
            IdValue::U8(t) => Some(t),
            _ => None,
        }
    }
}

impl IdKey for i32 {
    open spec fn key_view(&self) -> IdView {
        IdView::I32(*self as int)
    }

    open spec fn kind_matches(v: IdView) -> bool {
        v is I32
    }

    fn wrap(self) -> (r: IdValue) {
        IdValue::I32(self)
    }

    fn unwrap_ref(v: &IdValue) -> (r: Option<&Self>) {
        match v {
            IdValue::I32(t) => Some(t),
            _ => None,
        }
    }
}

impl IdKey for u64 {
    open spec fn key_view(&self) -> IdView {
        IdView::U64(*self as int)
    }

    open spec fn kind_matches(v: IdView) -> bool {
        v is U64
    }

    fn wrap(self) -> (r: IdValue) {
        IdValue::U64(self)
    }

    fn unwrap_ref(v: &IdValue) -> (r: Option<&Self>) {
        match v {
            IdValue::U64(t) => Some(t),
            _ => None,
        }
    }
}

impl IdKey for i64 {
    open spec fn key_view(&self) -> IdView {
        IdView::I64(*self as int)
    }

    open spec fn kind_matches(v: IdView) -> bool {
        v is I64
    }

    fn wrap(self) -> (r: IdValue) {
        IdValue::I64(self)
    }

    fn unwrap_ref(v: &IdValue) -> (r: Option<&Self>) {
        match v {
            IdValue::I64(t) => Some(t),
            _ => None,
        }
    }
}

impl IdKey for String {
    open spec fn key_view(&self) -> IdView {
        IdView::Text(self@)
    }

    open spec fn kind_matches(v: IdView) -> bool {
        v is Text
    }

    fn wrap(self) -> (r: IdValue) {
        IdValue::Text(self)
    }

    fn unwrap_ref(v: &IdValue) -> (r: Option<&Self>) {
        match v {
            IdValue::Text(t) => Some(t),
            _ => None,
        }
    }
}

/// A type-erased identity: wraps a caller-supplied key value and compares,
/// hashes and prints through it. Cheap to clone; equality and hash follow
/// the wrapped value, and identities of different key types never compare
/// equal.
#[derive(Debug, Hash)]
pub struct Id {
    value: IdValue,
}

impl View for Id {
    type V = IdView;

    closed spec fn view(&self) -> IdView {
        self.value@
    }
}

impl Id {
    /// Wraps a key value into an identity.
    pub fn new<T: IdKey>(id: T) -> (r: Id)
        ensures
            r@ == id.key_view(),
    {
        Id { value: id.wrap() }
    }

    /// The wrapped value, typed as `T`; `None` if the identity wraps a
    /// value of a different key type.
    pub fn downcast_ref<T: IdKey>(&self) -> (r: Option<&T>)
        ensures
            (match r {
                Some(t) => t.key_view() == self@ && T::kind_matches(self@),
                None => !T::kind_matches(self@),
            }),
    {
        T::unwrap_ref(&self.value)
    }

    /// The wrapped value, typed as `T`; the identity must wrap a value of
    /// that key type.
    pub fn as_ref<T: IdKey>(&self) -> (r: &T)
        requires
            T::kind_matches(self@),
        ensures
            r.key_view() == self@,
    {
        match T::unwrap_ref(&self.value) {
            Some(t) => t,
            None => unreached(),
        }
    }
}

fn clone_value(v: &IdValue) -> (r: IdValue)
    ensures
        r@ == v@,
{
    match v {
        IdValue::Usize(t) => IdValue::Usize(*t),
        IdValue::U8(t) => IdValue::U8(*t),
        IdValue::I32(t) => IdValue::I32(*t),
        IdValue::U64(t) => IdValue::U64(*t),
        IdValue::I64(t) => IdValue::I64(*t),
        IdValue::Text(s) => IdValue::Text(s.clone()),
    }
}

impl Clone for Id {
    fn clone(&self) -> (r: Self)
        ensures
            r@ == self@,
    {
        Id { value: clone_value(&self.value) }
    }
}

impl PartialEq for Id {
    fn eq(&self, other: &Self) -> (r: bool) {
        match (&self.value, &other.value) {
            (IdValue::Usize(a), IdValue::Usize(b)) => *a == *b,
            (IdValue::U8(a), IdValue::U8(b)) => *a == *b,
            (IdValue::I32(a), IdValue::I32(b)) => *a == *b,
            (IdValue::U64(a), IdValue::U64(b)) => *a == *b,
            (IdValue::I64(a), IdValue::I64(b)) => *a == *b,
            (IdValue::Text(a), IdValue::Text(b)) => a.eq(b),
            _ => false,
        }
    }
}

impl vstd::std_specs::cmp::PartialEqSpecImpl for Id {
    open spec fn obeys_eq_spec() -> bool {
        true
    }

    open spec fn eq_spec(&self, other: &Id) -> bool {
        self@ == other@
    }
}

impl Eq for Id {}

impl crate::kv::StoreItem for Id {
    fn dup(&self) -> (r: Self) {
        self.clone()
    }
}

impl crate::kv::StoreKey for Id {
    fn key_eq(&self, other: &Self) -> (r: bool) {
        self == other
    }
}

/// Identity equality law: two identities are equal exactly when they wrap
/// equal values of the same key type; identities wrapping values of
/// different key types are never equal, whatever the values.
pub proof fn lemma_identity_equality(a: Id, b: Id)
    ensures
        (a@ == b@) == (match (a@, b@) {
            (IdView::Usize(x), IdView::Usize(y)) => x == y,
            (IdView::U8(x), IdView::U8(y)) => x == y,
            (IdView::I32(x), IdView::I32(y)) => x == y,
            (IdView::U64(x), IdView::U64(y)) => x == y,
            (IdView::I64(x), IdView::I64(y)) => x == y,
            (IdView::Text(x), IdView::Text(y)) => x == y,
            _ => false,
        }),
{
}

} // verus!
