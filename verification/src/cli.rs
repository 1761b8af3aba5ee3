use crate::text::{lemma_texts_push, str_equal, texts};
use vstd::prelude::*;
use vstd::string::*;

verus! {

/// The two phases of a program; each has its own authorization.
#[derive(Debug, Clone, Copy, PartialEq, Eq, Structural)]
pub enum ProgramAction {
    Deploy,
    Withdraw,
}

/// The pricing curve of a pool.
#[derive(Debug, PartialEq, Eq)]
pub enum PairType {
    Xyk,
    Stable,
    Custom(String),
}

/// How a pool accounts for shares of its liquidity: by a native token or
/// by a token contract.
#[derive(Debug, PartialEq, Eq)]
pub enum PoolType {
    NativeLpToken(PairType),
    Cw20LpToken(PairType),
}

/// One pool that a program provides liquidity to: where it is, and how
/// much of which two assets goes into it.
#[derive(Debug, PartialEq, Eq)]
pub struct PoolInfo {
    pub address: String,
    pub amount_a: u128,
    pub amount_b: u128,
    pub denom_a: String,
    pub denom_b: String,
    pub pool_type: PoolType,
}

pub enum PairTypeView {
    Xyk,
    Stable,
    Custom(Seq<char>),
}

pub enum PoolTypeView {
    NativeLpToken(PairTypeView),
    Cw20LpToken(PairTypeView),
}

pub struct PoolInfoView {
    pub address: Seq<char>,
    pub amount_a: u128,
    pub amount_b: u128,
    pub denom_a: Seq<char>,
    pub denom_b: Seq<char>,
    pub pool_type: PoolTypeView,
}

impl View for PairType {
    type V = PairTypeView;

    open spec fn view(&self) -> PairTypeView {
        match self {
            PairType::Xyk => PairTypeView::Xyk,
            PairType::Stable => PairTypeView::Stable,
            PairType::Custom(name) => PairTypeView::Custom(name@),
        }
    }
}

impl View for PoolType {
    type V = PoolTypeView;

    open spec fn view(&self) -> PoolTypeView {
        match self {
            PoolType::NativeLpToken(pair) => PoolTypeView::NativeLpToken(pair@),
            PoolType::Cw20LpToken(pair) => PoolTypeView::Cw20LpToken(pair@),
        }
    }
}

impl View for PoolInfo {
    type V = PoolInfoView;

    open spec fn view(&self) -> PoolInfoView {
        PoolInfoView {
            address: self.address@,
            amount_a: self.amount_a,
            amount_b: self.amount_b,
            denom_a: self.denom_a@,
            denom_b: self.denom_b@,
            pool_type: self.pool_type@,
        }
    }
}

/// The fields of a text, which commas part. A text without a comma is
/// one field; a comma at either end parts off an empty field.
pub open spec fn comma_fields(text: Seq<char>) -> Seq<Seq<char>>
    decreases text.len(),
{
    if text.len() == 0 {
        seq![Seq::<char>::empty()]
    } else {
        let before = comma_fields(text.drop_last());
        if text.last() == ',' {
            before.push(Seq::<char>::empty())
        } else {
            before.drop_last().push(before.last().push(text.last()))
        }
    }
}

/// The digits of a number text: the text without a leading plus sign.
pub open spec fn number_digits(text: Seq<char>) -> Seq<char> {
    if text.len() > 0 && text[0] == '+' {
        text.skip(1)
    } else {
        text
    }
}

/// The number that decimal digits spell.
pub open spec fn decimal_value(digits: Seq<char>) -> nat
    decreases digits.len(),
{
    if digits.len() == 0 {
        0
    } else {
        (decimal_value(digits.drop_last()) * 10 + (digits.last() as u32 - '0' as u32)) as nat
    }
}

/// A text of one or more decimal digits, with or without a plus sign before them.
pub open spec fn is_number(text: Seq<char>) -> bool {
    &&& number_digits(text).len() > 0
    &&& forall|i: int|
        0 <= i < number_digits(text).len() ==> '0' as u32 <= #[trigger] number_digits(text)[i] as u32
            <= '9' as u32
}

/// The amount that a text spells, where it spells one that fits in 128 bits.
pub open spec fn amount_of(text: Seq<char>) -> Option<u128> {
    if is_number(text) && decimal_value(number_digits(text)) <= u128::MAX {
        Some(decimal_value(number_digits(text)) as u128)
    } else {
        None
    }
}

/// The kind of pool that a tag names. A custom curve is named by the tag itself.
pub open spec fn pool_type_of(tag: Seq<char>) -> Option<PoolTypeView> {
    if tag == "xyk_cw20"@ {
        Some(PoolTypeView::Cw20LpToken(PairTypeView::Xyk))
    } else if tag == "stable_cw20"@ {
        Some(PoolTypeView::Cw20LpToken(PairTypeView::Stable))
    } else if tag == "custom_cw20"@ {
        Some(PoolTypeView::Cw20LpToken(PairTypeView::Custom(tag)))
    } else if tag == "xyk_native"@ {
        Some(PoolTypeView::NativeLpToken(PairTypeView::Xyk))
    } else if tag == "stable_native"@ {
        Some(PoolTypeView::NativeLpToken(PairTypeView::Stable))
    } else if tag == "custom_native"@ {
        Some(PoolTypeView::NativeLpToken(PairTypeView::Custom(tag)))
    } else {
        None
    }
}

/// What a pool description says, or why it says nothing: it must hold six
/// fields, then name a kind of pool, then spell its two amounts.
pub open spec fn pool_of(text: Seq<char>) -> Result<PoolInfoView, Seq<char>> {
    let parts = comma_fields(text);
    if parts.len() != 6 {
        Err("Invalid format. Expected: address,amount_a,amount_b,denom_a,denom_b,pool_type"@)
    } else if pool_type_of(parts[5]) is None {
        Err("Invalid pool_type format"@)
    } else if amount_of(parts[1]) is None {
        Err("Invalid amount_a format"@)
    } else if amount_of(parts[2]) is None {
        Err("Invalid amount_b format"@)
    } else {
        Ok(
            PoolInfoView {
                address: parts[0],
                amount_a: amount_of(parts[1])->0,
                amount_b: amount_of(parts[2])->0,
                denom_a: parts[3],
                denom_b: parts[4],
                pool_type: pool_type_of(parts[5])->0,
            },
        )
    }
}

/// Wraps `str::parse::<u128>` from std, which reads an optional plus sign
/// and then decimal digits, and fails on an empty text, on any other
/// character and on a number that does not fit.
#[verifier::external_body]
fn parse_amount(text: &str) -> (res: Option<u128>)
    ensures
        res == amount_of(text@),
{
    text.parse::<u128>().ok()
}

/// Parts a text at its commas.
pub fn split_commas(text: &str) -> (parts: Vec<String>)
    ensures
        texts(parts@) == comma_fields(text@),
{
    let n: usize = text.unicode_len();
    let mut parts: Vec<String> = Vec::new();
    let mut start: usize = 0;
    let mut i: usize = 0;
    proof {
        assert(text@.subrange(0, 0) =~= Seq::<char>::empty());
        assert(text@.take(0) =~= Seq::<char>::empty());
        assert(texts(parts@).push(text@.subrange(0, 0)) =~= seq![Seq::<char>::empty()]);
    }
    while i < n
        invariant
            n == text@.len(),
            start <= i <= n,
            texts(parts@).push(text@.subrange(start as int, i as int)) == comma_fields(
                text@.take(i as int),
            ),
        decreases n - i,
    {
        let c = text.get_char(i);
        proof {
            assert(text@.take(i + 1).drop_last() =~= text@.take(i as int));
            assert(text@.take(i + 1).last() == c);
        }
        if c == ',' {
            let field = String::from_str(text.substring_char(start, i));
            proof {
                lemma_texts_push(parts@, field);
            }
            parts.push(field);
            start = i + 1;
            assert(text@.subrange(start as int, i + 1) =~= Seq::<char>::empty());
        } else {
            let ghost before = comma_fields(text@.take(i as int));
            assert(before.drop_last() =~= texts(parts@));
            assert(text@.subrange(start as int, i + 1) =~= before.last().push(c));
        }
        i += 1;
    }
    let field = String::from_str(text.substring_char(start, n));
    proof {
        lemma_texts_push(parts@, field);
        assert(text@.take(n as int) =~= text@);
    }
    parts.push(field);
    parts
}

fn parse_pool_type(tag: &str) -> (res: Option<PoolType>)
    ensures
        match res {
            Some(pool_type) => pool_type_of(tag@) == Some(pool_type@),
            None => pool_type_of(tag@) is None,
        },
{
    if str_equal(tag, "xyk_cw20") {
        Some(PoolType::Cw20LpToken(PairType::Xyk))
    } else if str_equal(tag, "stable_cw20") {
        Some(PoolType::Cw20LpToken(PairType::Stable))
    } else if str_equal(tag, "custom_cw20") {
        Some(PoolType::Cw20LpToken(PairType::Custom(String::from_str(tag))))
    } else if str_equal(tag, "xyk_native") {
        Some(PoolType::NativeLpToken(PairType::Xyk))
    } else if str_equal(tag, "stable_native") {
        Some(PoolType::NativeLpToken(PairType::Stable))
    } else if str_equal(tag, "custom_native") {
        Some(PoolType::NativeLpToken(PairType::Custom(String::from_str(tag))))
    } else {
        None
    }
}

/// Reads a pool description of the form
/// `address,amount_a,amount_b,denom_a,denom_b,pool_type`.
pub fn parse_pool(s: &str) -> (res: Result<PoolInfo, String>)
    ensures
        match res {
            Ok(pool) => pool_of(s@) == Ok::<PoolInfoView, Seq<char>>(pool@),
            Err(why) => pool_of(s@) == Err::<PoolInfoView, Seq<char>>(why@),
        },
{
    let parts = split_commas(s);
    if parts.len() != 6 {
        return Err(
            String::from_str(
                "Invalid format. Expected: address,amount_a,amount_b,denom_a,denom_b,pool_type",
            ),
        );
    }
    proof {
        assert(forall|i: int| 0 <= i < 6 ==> texts(parts@)[i] == (#[trigger] parts@[i])@);
    }
    let pool_type = match parse_pool_type(parts[5].as_str()) {
        Some(pool_type) => pool_type,
        None => {
            return Err(String::from_str("Invalid pool_type format"));
        },
    };
    let amount_a = match parse_amount(parts[1].as_str()) {
        Some(amount) => amount,
        None => {
            return Err(String::from_str("Invalid amount_a format"));
        },
    };
    let amount_b = match parse_amount(parts[2].as_str()) {
        Some(amount) => amount,
        None => {
            return Err(String::from_str("Invalid amount_b format"));
        },
    };
    Ok(
        PoolInfo {
            address: parts[0].clone(),
            amount_a,
            amount_b,
            denom_a: parts[3].clone(),
            denom_b: parts[4].clone(),
            pool_type,
        },
    )
}

} // verus!
