//! Global object identifiers.
//!
//! An identifier names one entity of one backend service: a service tag, an
//! entity tag and the entity's own non-negative number. Its text is the three
//! numbers in canonical decimal, separated by colons (`"1:1:42"`): each tag has
//! a fixed wire number, so the text is stable and unambiguous.
use vstd::prelude::*;
use crate::decimal::{
    decimal,
    digits_value,
    is_canonical,
    lemma_canonical_decimal,
    lemma_decimal_canonical,
    parse_decimal,
    push_decimal,
};

verus! {

/// The largest number any part of an identifier may carry.
pub const MAX_ID_PART: u32 = 2147483647;

/// A backend service that owns entities.
#[derive(Clone, Copy, Debug, PartialEq, Eq, Structural)]
pub enum Service {
    Users,
    Stores,
    Orders,
    Billing,
    Warehouses,
    Delivery,
}

/// A kind of entity, as the services name their collections.
#[derive(Clone, Copy, Debug, PartialEq, Eq, Structural)]
pub enum Model {
    User,
    UserRoles,
    Store,
    Product,
    BaseProduct,
    CartProduct,
    Order,
    Invoice,
    PaymentIntent,
    Customer,
    Role,
    CompanyPackage,
    Warehouse,
    Stock,
    Coupon,
}

/// Why a text is not an identifier.
#[derive(Clone, Copy, Debug, PartialEq, Eq, Structural)]
pub enum IdError {
    /// The text is not three canonical decimals separated by colons.
    Malformed,
    /// The text has the right shape but names no known service or entity kind.
    UnknownTag,
}

impl Service {
    /// The wire number of the service.
    pub open spec fn code(self) -> nat {
        match self {
            Service::Users => 1,
            Service::Stores => 2,
            Service::Orders => 3,
            Service::Billing => 4,
            Service::Warehouses => 5,
            Service::Delivery => 6,
        }
    }

    pub fn tag(&self) -> (r: u32)
        ensures
            r == self.code(),
    {
        match self {
            Service::Users => 1,
            Service::Stores => 2,
            Service::Orders => 3,
            Service::Billing => 4,
            Service::Warehouses => 5,
            Service::Delivery => 6,
        }
    }

    pub fn from_tag(n: u32) -> (r: Option<Service>)
        ensures
            r matches Some(sv) ==> sv.code() == n,
            r is None ==> forall|sv: Service| sv.code() != n,
    {
        match n {
            1 => Some(Service::Users),
            2 => Some(Service::Stores),
            3 => Some(Service::Orders),
            4 => Some(Service::Billing),
            5 => Some(Service::Warehouses),
            6 => Some(Service::Delivery),
            _ => None,
        }
    }
}

impl Model {
    /// The wire number of the entity kind.
    pub open spec fn code(self) -> nat {
        match self {
            Model::User => 1,
            Model::UserRoles => 2,
            Model::Store => 3,
            Model::Product => 4,
            Model::BaseProduct => 5,
            Model::CartProduct => 6,
            Model::Order => 7,
            Model::Invoice => 8,
            Model::PaymentIntent => 9,
            Model::Customer => 10,
            Model::Role => 11,
            Model::CompanyPackage => 12,
            Model::Warehouse => 13,
            Model::Stock => 14,
            Model::Coupon => 15,
        }
    }

    pub fn tag(&self) -> (r: u32)
        ensures
            r == self.code(),
    {
        match self {
            Model::User => 1,
            Model::UserRoles => 2,
            Model::Store => 3,
            Model::Product => 4,
            Model::BaseProduct => 5,
            Model::CartProduct => 6,
            Model::Order => 7,
            Model::Invoice => 8,
            Model::PaymentIntent => 9,
            Model::Customer => 10,
            Model::Role => 11,
            Model::CompanyPackage => 12,
            Model::Warehouse => 13,
            Model::Stock => 14,
            Model::Coupon => 15,
        }
    }

    pub fn from_tag(n: u32) -> (r: Option<Model>)
        ensures
            r matches Some(m) ==> m.code() == n,
            r is None ==> forall|m: Model| m.code() != n,
    {
        match n {
            1 => Some(Model::User),
            2 => Some(Model::UserRoles),
            3 => Some(Model::Store),
            4 => Some(Model::Product),
            5 => Some(Model::BaseProduct),
            6 => Some(Model::CartProduct),
            7 => Some(Model::Order),
            8 => Some(Model::Invoice),
            9 => Some(Model::PaymentIntent),
            10 => Some(Model::Customer),
            11 => Some(Model::Role),
            12 => Some(Model::CompanyPackage),
            13 => Some(Model::Warehouse),
            14 => Some(Model::Stock),
            15 => Some(Model::Coupon),
            _ => None,
        }
    }
}

/// A global identifier: which service owns the entity, its kind, and its number.
#[derive(Clone, Copy, Debug, PartialEq, Eq, Structural)]
pub struct ID {
    pub service: Service,
    pub model: Model,
    pub raw_id: i32,
}

/// The text of three identifier parts.
pub open spec fn id_text(a: nat, b: nat, c: nat) -> Seq<char> {
    decimal(a) + seq![':'] + decimal(b) + seq![':'] + decimal(c)
}

/// The text has an identifier's shape, whatever its tags.
pub open spec fn is_id_shaped(s: Seq<char>) -> bool {
    exists|a: nat, b: nat, c: nat|
        a <= MAX_ID_PART && b <= MAX_ID_PART && c <= MAX_ID_PART && s == #[trigger] id_text(a, b, c)
}

/// The text is the encoding of some valid identifier.
pub open spec fn is_encoding(s: Seq<char>) -> bool {
    exists|id: ID| id.wf() && #[trigger] id.text() == s
}

/// What decoding a text gives: the identifier it encodes, else the reason.
pub open spec fn decode_spec(s: Seq<char>) -> Result<ID, IdError> {
    if is_encoding(s) {
        Ok(choose|id: ID| id.wf() && #[trigger] id.text() == s)
    } else if is_id_shaped(s) {
        Err(IdError::UnknownTag)
    } else {
        Err(IdError::Malformed)
    }
}

impl ID {
    pub open spec fn wf(self) -> bool {
        self.raw_id >= 0
    }

    /// The encoded text of the identifier.
    pub open spec fn text(self) -> Seq<char> {
        id_text(self.service.code(), self.model.code(), self.raw_id as nat)
    }

    pub fn new(service: Service, model: Model, raw_id: i32) -> (r: ID)
        ensures
            r == (ID { service, model, raw_id }),
    {
        ID { service, model, raw_id }
    }

    /// Encodes the identifier as text.
    pub fn to_string(&self) -> (r: String)
        requires
            self.wf(),
        ensures
            r@ == self.text(),
    {
        let mut out = String::new();
        push_decimal(&mut out, self.service.tag() as u64);
        out.append(":");
        push_decimal(&mut out, self.model.tag() as u64);
        out.append(":");
        push_decimal(&mut out, self.raw_id as u64);
        proof {
            reveal_strlit(":");
        }
        assert(out@ =~= self.text());
        out
    }

    /// Decodes an identifier from its text.
    pub fn from_str(s: &str) -> (r: Result<ID, IdError>)
        ensures
            r == decode_spec(s@),
            r matches Ok(id) ==> id.wf() && id.text() == s@,
    {
        let n = s.unicode_len();
        let p1 = find_colon(s, 0, n);
        if p1 == n {
            proof {
                lemma_not_shaped(s@, p1 as int, n as int);
                lemma_shaped_if_encoding(s@);
            }
            return Err(IdError::Malformed);
        }
        let p2 = find_colon(s, p1 + 1, n);
        if p2 == n {
            proof {
                lemma_not_shaped(s@, p1 as int, p2 as int);
                lemma_shaped_if_encoding(s@);
            }
            return Err(IdError::Malformed);
        }
        let a = parse_decimal(s, 0, p1, MAX_ID_PART);
        let b = parse_decimal(s, p1 + 1, p2, MAX_ID_PART);
        let c = parse_decimal(s, p2 + 1, n, MAX_ID_PART);
        if a.is_none() || b.is_none() || c.is_none() {
            proof {
                lemma_not_shaped(s@, p1 as int, p2 as int);
                lemma_shaped_if_encoding(s@);
            }
            return Err(IdError::Malformed);
        }
        let a = a.unwrap();
        let b = b.unwrap();
        let c = c.unwrap();
        proof {
            let t = s@;
            lemma_canonical_decimal(t.subrange(0, p1 as int));
            lemma_canonical_decimal(t.subrange(p1 + 1, p2 as int));
            lemma_canonical_decimal(t.subrange(p2 + 1, n as int));
            assert(t =~= id_text(a as nat, b as nat, c as nat));
        }
        match (Service::from_tag(a), Model::from_tag(b)) {
            (Some(service), Some(model)) => {
                let id = ID { service, model, raw_id: c as i32 };
                proof {
                    assert(id.text() == s@);
                    lemma_decode_of_text(id, s@);
                }
                Ok(id)
            },
            _ => {
                proof {
                    if is_encoding(s@) {
                        let id2 = choose|id2: ID| id2.wf() && #[trigger] id2.text() == s@;
                        lemma_id_text_injective(
                            a as nat,
                            b as nat,
                            c as nat,
                            id2.service.code(),
                            id2.model.code(),
                            id2.raw_id as nat,
                        );
                    }
                }
                Err(IdError::UnknownTag)
            },
        }
    }
}

/// The first colon of `s` at or after `lo`, or the length of `s`.
fn find_colon(s: &str, lo: usize, n: usize) -> (r: usize)
    requires
        lo <= n,
        n == s@.len(),
    ensures
        lo <= r <= n,
        forall|k: int| lo <= k < r ==> s@[k] != ':',
        r < n ==> s@[r as int] == ':',
{
    let mut i = lo;
    while i < n
        invariant
            lo <= i <= n,
            n == s@.len(),
            forall|k: int| lo <= k < i ==> s@[k] != ':',
        decreases n - i,
    {
        if s.get_char(i) == ':' {
            return i;
        }
        i = i + 1;
    }
    i
}

/// Where the colons of an identifier text stand, and what lies between them.
proof fn lemma_id_text_layout(a: nat, b: nat, c: nat)
    ensures
        ({
            let t = id_text(a, b, c);
            let p1 = decimal(a).len() as int;
            let p2 = p1 + 1 + decimal(b).len();
            &&& t.len() == p2 + 1 + decimal(c).len()
            &&& t[p1] == ':'
            &&& t[p2] == ':'
            &&& forall|k: int| 0 <= k < p1 ==> t[k] != ':'
            &&& forall|k: int| p1 < k < p2 ==> t[k] != ':'
            &&& forall|k: int| p2 < k < t.len() ==> t[k] != ':'
            &&& t.subrange(0, p1) == decimal(a)
            &&& t.subrange(p1 + 1, p2) == decimal(b)
            &&& t.subrange(p2 + 1, t.len() as int) == decimal(c)
        }),
{
    lemma_decimal_canonical(a);
    lemma_decimal_canonical(b);
    lemma_decimal_canonical(c);
    let t = id_text(a, b, c);
    let da = decimal(a);
    let db = decimal(b);
    let dc = decimal(c);
    let p1 = da.len() as int;
    let p2 = p1 + 1 + db.len();
    assert forall|k: int| 0 <= k < p1 implies t[k] != ':' by {
        assert(t[k] == da[k]);
    }
    assert forall|k: int| p1 < k < p2 implies t[k] != ':' by {
        assert(t[k] == db[k - p1 - 1]);
    }
    assert forall|k: int| p2 < k < t.len() implies t[k] != ':' by {
        assert(t[k] == dc[k - p2 - 1]);
    }
    assert(t.subrange(0, p1) =~= da);
    assert(t.subrange(p1 + 1, p2) =~= db);
    assert(t.subrange(p2 + 1, t.len() as int) =~= dc);
}

/// Equal identifier texts have equal parts.
proof fn lemma_id_text_injective(a: nat, b: nat, c: nat, a2: nat, b2: nat, c2: nat)
    requires
        id_text(a, b, c) == id_text(a2, b2, c2),
    ensures
        a == a2,
        b == b2,
        c == c2,
{
    lemma_id_text_layout(a, b, c);
    lemma_id_text_layout(a2, b2, c2);
    let t = id_text(a, b, c);
    let p1 = decimal(a).len() as int;
    let q1 = decimal(a2).len() as int;
    assert(p1 == q1) by {
        if p1 < q1 {
            assert(t[p1] == ':');
        } else if q1 < p1 {
            assert(t[q1] == ':');
        }
    }
    let p2 = p1 + 1 + decimal(b).len();
    let q2 = q1 + 1 + decimal(b2).len();
    assert(p2 == q2) by {
        if p2 < q2 {
            assert(t[p2] == ':');
        } else if q2 < p2 {
            assert(t[q2] == ':');
        }
    }
    lemma_decimal_canonical(a);
    lemma_decimal_canonical(a2);
    lemma_decimal_canonical(b);
    lemma_decimal_canonical(b2);
    lemma_decimal_canonical(c);
    lemma_decimal_canonical(c2);
}

/// Two valid identifiers with the same text are the same identifier.
pub proof fn lemma_text_injective(x: ID, y: ID)
    requires
        x.wf(),
        y.wf(),
        x.text() == y.text(),
    ensures
        x == y,
{
    lemma_id_text_injective(
        x.service.code(),
        x.model.code(),
        x.raw_id as nat,
        y.service.code(),
        y.model.code(),
        y.raw_id as nat,
    );
}

/// A text that some valid identifier encodes is decoded to that identifier.
proof fn lemma_decode_of_text(id: ID, s: Seq<char>)
    requires
        id.wf(),
        id.text() == s,
    ensures
        decode_spec(s) == Ok::<ID, IdError>(id),
{
    assert(is_encoding(s));
    let other = choose|other: ID| other.wf() && #[trigger] other.text() == s;
    lemma_text_injective(id, other);
}

/// Every encoding has an identifier's shape.
proof fn lemma_shaped_if_encoding(s: Seq<char>)
    ensures
        is_encoding(s) ==> is_id_shaped(s),
{
    if is_encoding(s) {
        let id = choose|id: ID| id.wf() && #[trigger] id.text() == s;
        assert(id.text() == id_text(id.service.code(), id.model.code(), id.raw_id as nat));
    }
}

/// A text whose colons do not fall where an identifier's would, or whose
/// parts are not canonical decimals in range, has no identifier shape.
proof fn lemma_not_shaped(s: Seq<char>, p1: int, p2: int)
    requires
        0 <= p1 <= p2 <= s.len(),
        forall|k: int| 0 <= k < p1 ==> s[k] != ':',
        p1 < s.len() ==> s[p1] == ':',
        p1 < s.len() ==> forall|k: int| p1 < k < p2 ==> s[k] != ':',
        p1 < s.len() ==> p1 < p2,
        p2 < s.len() ==> s[p2] == ':',
        p1 == s.len() || p2 == s.len() || !(is_canonical(s.subrange(0, p1)) && digits_value(
            s.subrange(0, p1),
        ) <= MAX_ID_PART) || !(is_canonical(s.subrange(p1 + 1, p2)) && digits_value(
            s.subrange(p1 + 1, p2),
        ) <= MAX_ID_PART) || !(is_canonical(s.subrange(p2 + 1, s.len() as int)) && digits_value(
            s.subrange(p2 + 1, s.len() as int),
        ) <= MAX_ID_PART),
    ensures
        !is_id_shaped(s),
{
    if is_id_shaped(s) {
        let (a, b, c) = choose|a: nat, b: nat, c: nat|
            a <= MAX_ID_PART && b <= MAX_ID_PART && c <= MAX_ID_PART && s == #[trigger] id_text(
                a,
                b,
                c,
            );
        lemma_id_text_layout(a, b, c);
        lemma_decimal_canonical(a);
        lemma_decimal_canonical(b);
        lemma_decimal_canonical(c);
        let q1 = decimal(a).len() as int;
        let q2 = q1 + 1 + decimal(b).len();
        assert(p1 == q1) by {
            if p1 < q1 {
                assert(s[p1] == ':');
            } else if q1 < p1 {
                assert(s[q1] == ':');
            }
        }
        assert(p2 == q2) by {
            if p2 < q2 {
                assert(s[p2] == ':');
            } else if q2 < p2 {
                assert(s[q2] == ':');
            }
        }
    }
}

/// Decoding the encoding of a valid identifier gives that identifier back.
pub proof fn lemma_decode_encode(id: ID)
    requires
        id.wf(),
    ensures
        decode_spec(id.text()) == Ok::<ID, IdError>(id),
{
    lemma_decode_of_text(id, id.text());
}

/// A text that encodes no valid identifier is refused by decoding.
pub proof fn lemma_decode_rejects(s: Seq<char>)
    requires
        forall|id: ID| id.wf() ==> #[trigger] id.text() != s,
    ensures
        decode_spec(s) is Err,
{
}

} // verus!
