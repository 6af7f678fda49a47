//! Orders. An order is one of several kinds, and each kind has its own
//! members; on the wire the kind is a member of the same object as they are.

use crate::codec::{
    join, member_of, members_of, object, put_value, require, required, tag, tag_of, tag_member,
    tagged, FromJson, ToJson,
};
use crate::decimal::Decimal;
use crate::entity::{ProductCode, Side};
use crate::json::{entries_view, Json, JsonValue, Member, MemberValue};
use crate::text::str_eq;
use vstd::prelude::*;

verus! {

/// The kind of a child order: at a price, or at the market.
#[derive(Clone, Copy, Debug, PartialEq, Eq, Structural)]
pub enum ChildOrderType {
    Limit { price: Decimal },
    Market,
}

impl DeepView for ChildOrderType {
    type V = ChildOrderType;

    open spec fn deep_view(&self) -> ChildOrderType {
        *self
    }
}

impl ChildOrderType {
    /// The members that the kind writes into the object that holds it: its
    /// name under `child_order_type`, then its own.
    pub open spec fn members(v: ChildOrderType) -> Option<Seq<MemberValue>> {
        match v {
            ChildOrderType::Limit { price } => join(
                tag_member("child_order_type"@, "LIMIT"@),
                member_of::<Decimal>("price"@, price),
            ),
            ChildOrderType::Market => tag_member("child_order_type"@, "MARKET"@),
        }
    }

    /// The members of the kind, in the order in which they are written.
    /// Nothing where the price has no form on the wire.
    pub fn to_members(&self) -> (r: Option<Vec<Member>>)
        ensures
            members_of(r) == Self::members(*self),
    {
        match self {
            ChildOrderType::Limit { price } => {
                let mut out = tagged("child_order_type", "LIMIT");
                if !put_value(&mut out, "price", price) {
                    return None;
                }
                Some(out)
            },
            ChildOrderType::Market => Some(tagged("child_order_type", "MARKET")),
        }
    }
}

impl FromJson for ChildOrderType {
    open spec fn decoded(j: JsonValue) -> Option<ChildOrderType> {
        match tag_of(j, "child_order_type"@) {
            Some(kind) => if kind == "LIMIT"@ {
                match required::<Decimal>(j, "price"@) {
                    Some(price) => Some(ChildOrderType::Limit { price }),
                    None => None,
                }
            } else if kind == "MARKET"@ {
                Some(ChildOrderType::Market)
            } else {
                None
            },
            None => None,
        }
    }

    fn from_json(j: &Json) -> (r: Option<ChildOrderType>) {
        let kind = tag(j, "child_order_type")?;
        if str_eq(kind, "LIMIT") {
            let price = require::<Decimal>(j, "price")?;
            Some(ChildOrderType::Limit { price })
        } else if str_eq(kind, "MARKET") {
            Some(ChildOrderType::Market)
        } else {
            None
        }
    }
}

impl ToJson for ChildOrderType {
    open spec fn encoded(v: ChildOrderType) -> Option<JsonValue> {
        match ChildOrderType::members(v) {
            Some(members) => Some(JsonValue::Object(members)),
            None => None,
        }
    }

    fn to_json(&self) -> (r: Option<Json>) {
        match self.to_members() {
            Some(out) => Some(object(out)),
            None => None,
        }
    }
}

/// One condition of a parent order: an order of one of five kinds. Every
/// kind names the product, the side and the size; the prices and the offset
/// depend on the kind.
#[derive(Clone, Copy, Debug, PartialEq, Eq, Structural)]
pub enum ParentOrderConditionType {
    Limit { product_code: ProductCode, side: Side, size: Decimal, price: Decimal },
    Market { product_code: ProductCode, side: Side, size: Decimal },
    Stop { product_code: ProductCode, side: Side, size: Decimal, trigger_price: Decimal },
    StopLimit {
        product_code: ProductCode,
        side: Side,
        size: Decimal,
        price: Decimal,
        trigger_price: Decimal,
    },
    Trail { product_code: ProductCode, side: Side, size: Decimal, offset: u64 },
}

impl DeepView for ParentOrderConditionType {
    type V = ParentOrderConditionType;

    open spec fn deep_view(&self) -> ParentOrderConditionType {
        *self
    }
}

impl ParentOrderConditionType {
    /// The members that every kind of condition writes first: the name of the
    /// kind under `condition_type`, the product, the side and the size.
    pub open spec fn head(kind: Seq<char>, product_code: ProductCode, side: Side, size: Decimal)
        -> Option<Seq<MemberValue>> {
        join(
            join(
                join(
                    tag_member("condition_type"@, kind),
                    member_of::<ProductCode>("product_code"@, product_code),
                ),
                member_of::<Side>("side"@, side),
            ),
            member_of::<Decimal>("size"@, size),
        )
    }

    /// The members that a condition writes.
    pub open spec fn members(v: ParentOrderConditionType) -> Option<Seq<MemberValue>> {
        match v {
            ParentOrderConditionType::Limit { product_code, side, size, price } => join(
                Self::head("LIMIT"@, product_code, side, size),
                member_of::<Decimal>("price"@, price),
            ),
            ParentOrderConditionType::Market { product_code, side, size } => Self::head(
                "MARKET"@,
                product_code,
                side,
                size,
            ),
            ParentOrderConditionType::Stop { product_code, side, size, trigger_price } => join(
                Self::head("STOP"@, product_code, side, size),
                member_of::<Decimal>("trigger_price"@, trigger_price),
            ),
            ParentOrderConditionType::StopLimit {
                product_code,
                side,
                size,
                price,
                trigger_price,
            } => join(
                join(
                    Self::head("STOPLIMIT"@, product_code, side, size),
                    member_of::<Decimal>("price"@, price),
                ),
                member_of::<Decimal>("trigger_price"@, trigger_price),
            ),
            ParentOrderConditionType::Trail { product_code, side, size, offset } => join(
                Self::head("TRAIL"@, product_code, side, size),
                member_of::<u64>("offset"@, offset),
            ),
        }
    }

    /// The members that every kind writes first. Nothing where the size has
    /// no form on the wire.
    fn head_members(kind: &str, product_code: &ProductCode, side: &Side, size: &Decimal) -> (r:
        Option<Vec<Member>>)
        ensures
            members_of(r) == Self::head(kind@, *product_code, *side, *size),
    {
        let mut out = tagged("condition_type", kind);
        if !put_value(&mut out, "product_code", product_code) {
            return None;
        }
        if !put_value(&mut out, "side", side) {
            return None;
        }
        if !put_value(&mut out, "size", size) {
            return None;
        }
        Some(out)
    }

    /// The members of the condition, in the order in which they are written.
    /// Nothing where a number of the condition has no form on the wire.
    pub fn to_members(&self) -> (r: Option<Vec<Member>>)
        ensures
            members_of(r) == Self::members(*self),
    {
        match self {
            ParentOrderConditionType::Limit { product_code, side, size, price } => {
                let mut out = Self::head_members("LIMIT", product_code, side, size)?;
                if !put_value(&mut out, "price", price) {
                    return None;
                }
                Some(out)
            },
            ParentOrderConditionType::Market { product_code, side, size } => {
                Self::head_members("MARKET", product_code, side, size)
            },
            ParentOrderConditionType::Stop { product_code, side, size, trigger_price } => {
                let mut out = Self::head_members("STOP", product_code, side, size)?;
                if !put_value(&mut out, "trigger_price", trigger_price) {
                    return None;
                }
                Some(out)
            },
            ParentOrderConditionType::StopLimit {
                product_code,
                side,
                size,
                price,
                trigger_price,
            } => {
                let mut out = Self::head_members("STOPLIMIT", product_code, side, size)?;
                if !put_value(&mut out, "price", price) {
                    return None;
                }
                if !put_value(&mut out, "trigger_price", trigger_price) {
                    return None;
                }
                Some(out)
            },
            ParentOrderConditionType::Trail { product_code, side, size, offset } => {
                let mut out = Self::head_members("TRAIL", product_code, side, size)?;
                if !put_value(&mut out, "offset", offset) {
                    return None;
                }
                Some(out)
            },
        }
    }
}

impl ParentOrderConditionType {
    /// The condition of a kind, given what every kind names and the object
    /// that holds the members of the kind: nothing where the kind is not one
    /// of the five, or where a member of the kind is missing.
    pub open spec fn of_kind(
        kind: Seq<char>,
        product_code: ProductCode,
        side: Side,
        size: Decimal,
        j: JsonValue,
    ) -> Option<ParentOrderConditionType> {
        if kind == "LIMIT"@ {
            match required::<Decimal>(j, "price"@) {
                Some(price) => Some(
                    ParentOrderConditionType::Limit { product_code, side, size, price },
                ),
                None => None,
            }
        } else if kind == "MARKET"@ {
            Some(ParentOrderConditionType::Market { product_code, side, size })
        } else if kind == "STOP"@ {
            match required::<Decimal>(j, "trigger_price"@) {
                Some(trigger_price) => Some(
                    ParentOrderConditionType::Stop { product_code, side, size, trigger_price },
                ),
                None => None,
            }
        } else if kind == "STOPLIMIT"@ {
            match (required::<Decimal>(j, "price"@), required::<Decimal>(j, "trigger_price"@)) {
                (Some(price), Some(trigger_price)) => Some(
                    ParentOrderConditionType::StopLimit {
                        product_code,
                        side,
                        size,
                        price,
                        trigger_price,
                    },
                ),
                _ => None,
            }
        } else if kind == "TRAIL"@ {
            match required::<u64>(j, "offset"@) {
                Some(offset) => Some(
                    ParentOrderConditionType::Trail { product_code, side, size, offset },
                ),
                None => None,
            }
        } else {
            None
        }
    }
}

impl FromJson for ParentOrderConditionType {
    open spec fn decoded(j: JsonValue) -> Option<ParentOrderConditionType> {
        match (
            tag_of(j, "condition_type"@),
            required::<ProductCode>(j, "product_code"@),
            required::<Side>(j, "side"@),
            required::<Decimal>(j, "size"@),
        ) {
            (Some(kind), Some(product_code), Some(side), Some(size)) => {
                ParentOrderConditionType::of_kind(kind, product_code, side, size, j)
            },
            _ => None,
        }
    }

    fn from_json(j: &Json) -> (r: Option<ParentOrderConditionType>) {
        let kind = tag(j, "condition_type")?;
        let product_code = require::<ProductCode>(j, "product_code")?;
        let side = require::<Side>(j, "side")?;
        let size = require::<Decimal>(j, "size")?;
        if str_eq(kind, "LIMIT") {
            let price = require::<Decimal>(j, "price")?;
            Some(ParentOrderConditionType::Limit { product_code, side, size, price })
        } else if str_eq(kind, "MARKET") {
            Some(ParentOrderConditionType::Market { product_code, side, size })
        } else if str_eq(kind, "STOP") {
            let trigger_price = require::<Decimal>(j, "trigger_price")?;
            Some(ParentOrderConditionType::Stop { product_code, side, size, trigger_price })
        } else if str_eq(kind, "STOPLIMIT") {
            let price = require::<Decimal>(j, "price")?;
            let trigger_price = require::<Decimal>(j, "trigger_price")?;
            Some(
                ParentOrderConditionType::StopLimit {
                    product_code,
                    side,
                    size,
                    price,
                    trigger_price,
                },
            )
        } else if str_eq(kind, "TRAIL") {
            let offset = require::<u64>(j, "offset")?;
            Some(ParentOrderConditionType::Trail { product_code, side, size, offset })
        } else {
            None
        }
    }
}

impl ToJson for ParentOrderConditionType {
    open spec fn encoded(v: ParentOrderConditionType) -> Option<JsonValue> {
        match ParentOrderConditionType::members(v) {
            Some(members) => Some(JsonValue::Object(members)),
            None => None,
        }
    }

    fn to_json(&self) -> (r: Option<Json>) {
        match self.to_members() {
            Some(out) => Some(object(out)),
            None => None,
        }
    }
}

/// How the conditions of a parent order depend on each other. Each way takes
/// a fixed number of conditions, and the type of `parameters` holds exactly
/// that many: a parent order with too few or too many cannot be written down.
#[allow(inconsistent_fields)]
#[derive(Clone, Copy, Debug, PartialEq, Eq)]
pub enum ParentOrderMethod {
    /// One order on its own.
    Simple { parameters: [ParentOrderConditionType; 1] },
    /// The second order is placed when the first is done.
    Ifd { parameters: [ParentOrderConditionType; 2] },
    /// Two orders, of which one cancels the other.
    Oco { parameters: [ParentOrderConditionType; 2] },
    /// When the first order is done, the other two are placed, of which one
    /// cancels the other.
    Ifdoco { parameters: [ParentOrderConditionType; 3] },
}

impl DeepView for ParentOrderMethod {
    type V = ParentOrderMethod;

    open spec fn deep_view(&self) -> ParentOrderMethod {
        *self
    }
}

impl ParentOrderMethod {
    /// The name of the way on the wire.
    pub open spec fn method_name(self) -> Seq<char> {
        match self {
            ParentOrderMethod::Simple { .. } => "SIMPLE"@,
            ParentOrderMethod::Ifd { .. } => "IFD"@,
            ParentOrderMethod::Oco { .. } => "OCO"@,
            ParentOrderMethod::Ifdoco { .. } => "IFDOCO"@,
        }
    }

    /// The conditions, in their order.
    pub open spec fn conditions(self) -> Seq<ParentOrderConditionType> {
        match self {
            ParentOrderMethod::Simple { parameters } => parameters@,
            ParentOrderMethod::Ifd { parameters } => parameters@,
            ParentOrderMethod::Oco { parameters } => parameters@,
            ParentOrderMethod::Ifdoco { parameters } => parameters@,
        }
    }

    /// The number of conditions that the way takes.
    pub open spec fn arity(self) -> nat {
        match self {
            ParentOrderMethod::Simple { .. } => 1,
            ParentOrderMethod::Ifd { .. } => 2,
            ParentOrderMethod::Oco { .. } => 2,
            ParentOrderMethod::Ifdoco { .. } => 3,
        }
    }

    /// The parent order of a name and a list of conditions: nothing where the
    /// name is not one of the four, or where the list does not have the
    /// number of conditions that the name takes.
    pub open spec fn of_conditions(name: Seq<char>, c: Seq<ParentOrderConditionType>) -> Option<
        ParentOrderMethod,
    > {
        if name == "SIMPLE"@ && c.len() == 1 {
            Some(ParentOrderMethod::Simple { parameters: [c[0]] })
        } else if name == "IFD"@ && c.len() == 2 {
            Some(ParentOrderMethod::Ifd { parameters: [c[0], c[1]] })
        } else if name == "OCO"@ && c.len() == 2 {
            Some(ParentOrderMethod::Oco { parameters: [c[0], c[1]] })
        } else if name == "IFDOCO"@ && c.len() == 3 {
            Some(ParentOrderMethod::Ifdoco { parameters: [c[0], c[1], c[2]] })
        } else {
            None
        }
    }

    /// The members that a parent order writes into the object that holds it:
    /// the name of the way under `order_method`, and the conditions as an
    /// array under `parameters`.
    pub open spec fn members(v: ParentOrderMethod) -> Option<Seq<MemberValue>> {
        join(
            tag_member("order_method"@, v.method_name()),
            member_of::<Vec<ParentOrderConditionType>>("parameters"@, v.conditions()),
        )
    }

    /// The name of the way on the wire.
    pub fn as_str(&self) -> (s: &'static str)
        ensures
            s@ == self.method_name(),
    {
        match self {
            ParentOrderMethod::Simple { .. } => "SIMPLE",
            ParentOrderMethod::Ifd { .. } => "IFD",
            ParentOrderMethod::Oco { .. } => "OCO",
            ParentOrderMethod::Ifdoco { .. } => "IFDOCO",
        }
    }

    /// The conditions, in their order.
    pub fn to_vec(&self) -> (v: Vec<ParentOrderConditionType>)
        ensures
            v@ == self.conditions(),
            v.deep_view() == self.conditions(),
            v.len() == self.arity(),
    {
        let mut v: Vec<ParentOrderConditionType> = Vec::new();
        match self {
            ParentOrderMethod::Simple { parameters } => {
                v.push(parameters[0]);
            },
            ParentOrderMethod::Ifd { parameters } => {
                v.push(parameters[0]);
                v.push(parameters[1]);
            },
            ParentOrderMethod::Oco { parameters } => {
                v.push(parameters[0]);
                v.push(parameters[1]);
            },
            ParentOrderMethod::Ifdoco { parameters } => {
                v.push(parameters[0]);
                v.push(parameters[1]);
                v.push(parameters[2]);
            },
        }
        assert(v@ =~= self.conditions());
        assert(v.deep_view() =~= v@);
        v
    }

    /// The parent order of a name and a list of conditions.
    pub fn from_conditions(name: &str, c: &Vec<ParentOrderConditionType>) -> (r: Option<
        ParentOrderMethod,
    >)
        ensures
            r == Self::of_conditions(name@, c@),
    {
        if str_eq(name, "SIMPLE") && c.len() == 1 {
            Some(ParentOrderMethod::Simple { parameters: [c[0]] })
        } else if str_eq(name, "IFD") && c.len() == 2 {
            Some(ParentOrderMethod::Ifd { parameters: [c[0], c[1]] })
        } else if str_eq(name, "OCO") && c.len() == 2 {
            Some(ParentOrderMethod::Oco { parameters: [c[0], c[1]] })
        } else if str_eq(name, "IFDOCO") && c.len() == 3 {
            Some(ParentOrderMethod::Ifdoco { parameters: [c[0], c[1], c[2]] })
        } else {
            None
        }
    }

    /// The members of the parent order, in the order in which they are
    /// written. Nothing where a number of a condition has no form on the wire.
    pub fn to_members(&self) -> (r: Option<Vec<Member>>)
        ensures
            members_of(r) == Self::members(*self),
    {
        let mut out = tagged("order_method", self.as_str());
        let conditions = self.to_vec();
        if !put_value(&mut out, "parameters", &conditions) {
            return None;
        }
        Some(out)
    }

    /// A parent order holds as many conditions as its way takes, and a list
    /// of conditions gives a parent order only if it is that long.
    pub proof fn lemma_arity(name: Seq<char>, c: Seq<ParentOrderConditionType>)
        ensures
            Self::of_conditions(name, c) matches Some(v) ==> v.method_name() == name
                && v.conditions() == c && c.len() == v.arity(),
            forall|v: ParentOrderMethod| #[trigger] v.conditions().len() == v.arity(),
    {
        if Self::of_conditions(name, c) is Some {
            let v = Self::of_conditions(name, c)->0;
            assert(v.conditions() =~= c);
        }
    }
}

impl FromJson for ParentOrderMethod {
    open spec fn decoded(j: JsonValue) -> Option<ParentOrderMethod> {
        match tag_of(j, "order_method"@) {
            Some(name) => match required::<Vec<ParentOrderConditionType>>(j, "parameters"@) {
                Some(c) => ParentOrderMethod::of_conditions(name, c),
                None => None,
            },
            None => None,
        }
    }

    fn from_json(j: &Json) -> (r: Option<ParentOrderMethod>) {
        let name = tag(j, "order_method")?;
        let c = require::<Vec<ParentOrderConditionType>>(j, "parameters")?;
        assert(c.deep_view() =~= c@);
        ParentOrderMethod::from_conditions(name, &c)
    }
}

impl ToJson for ParentOrderMethod {
    open spec fn encoded(v: ParentOrderMethod) -> Option<JsonValue> {
        match ParentOrderMethod::members(v) {
            Some(members) => Some(JsonValue::Object(members)),
            None => None,
        }
    }

    fn to_json(&self) -> (r: Option<Json>) {
        match self.to_members() {
            Some(out) => Some(object(out)),
            None => None,
        }
    }
}

} // verus!
