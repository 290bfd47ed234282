use vstd::prelude::*;

use crate::error::{DecodeError, ErrorView};
use crate::row::{lookup, spec_get_i32, spec_get_text, Row};
use crate::row::ColumnView;
use crate::text::str_eq;

verus! {

/// The closed set of currency kinds the schema stores.
#[derive(Debug, Clone, Copy, PartialEq, Eq, Structural)]
pub enum CurrencyType {
    Crypto,
    Fiat,
    CommodityBacked,
}

/// The currency kind a stored discriminant denotes, if it is a known one.
pub open spec fn spec_currency_type_of(t: Seq<char>) -> Option<CurrencyType> {
    if t == "CRYPTO"@ {
        Some(CurrencyType::Crypto)
    } else if t == "FIAT"@ {
        Some(CurrencyType::Fiat)
    } else if t == "COMMODITY_BACKED"@ {
        Some(CurrencyType::CommodityBacked)
    } else {
        None
    }
}

/// Decode a stored discriminant into the currency-type enumeration; text
/// outside the known set is rejected, never defaulted.
pub fn currency_type_from_text(t: &str) -> (r: Option<CurrencyType>)
    ensures
        r == spec_currency_type_of(t@),
{
    if str_eq(t, "CRYPTO") {
        Some(CurrencyType::Crypto)
    } else if str_eq(t, "FIAT") {
        Some(CurrencyType::Fiat)
    } else if str_eq(t, "COMMODITY_BACKED") {
        Some(CurrencyType::CommodityBacked)
    } else {
        None
    }
}

/// A currency definition: textual code, displayable decimal places, ISO
/// 4217 numeric code, display name, and kind.
#[derive(Debug, Clone)]
pub struct Currency {
    pub code: String,
    pub precision: u8,
    pub iso4217: u16,
    pub name: String,
    pub currency_type: CurrencyType,
}

/// Mathematical image of a currency.
pub struct CurrencyView {
    pub code: Seq<char>,
    pub precision: u8,
    pub iso4217: u16,
    pub name: Seq<char>,
    pub currency_type: CurrencyType,
}

impl View for Currency {
    type V = CurrencyView;

    open spec fn view(&self) -> CurrencyView {
        CurrencyView {
            code: self.code@,
            precision: self.precision,
            iso4217: self.iso4217,
            name: self.name@,
            currency_type: self.currency_type,
        }
    }
}

impl Currency {
    /// Construct a currency from its five decoded fields. Semantic rules
    /// on the values themselves (a known ISO code, a non-empty code) are
    /// the domain layer's concern downstream, not decoding's.
    pub fn new(
        code: String,
        precision: u8,
        iso4217: u16,
        name: String,
        currency_type: CurrencyType,
    ) -> (c: Currency)
        ensures
            c@ == (CurrencyView {
                code: code@,
                precision,
                iso4217,
                name: name@,
                currency_type,
            }),
    {
        Currency { code, precision, iso4217, name, currency_type }
    }
}

/// Narrowing a stored 32-bit integer to the 8-bit precision field: plain
/// truncation, since in-range values are the schema contract's promise and
/// are not re-checked here.
pub open spec fn narrow_u8(v: i32) -> u8 {
    v as u8
}

/// Narrowing a stored 32-bit integer to the 16-bit ISO code field, as
/// [`narrow_u8`].
pub open spec fn narrow_u16(v: i32) -> u16 {
    v as u16
}

/// The whole currency decode as a function of the row: the five columns
/// read in order, the first failure deciding the error, an unknown
/// discriminant rejected after the five reads.
pub open spec fn spec_decode_currency(cols: Seq<ColumnView>) -> Result<CurrencyView, ErrorView> {
    match spec_get_text(cols, "id"@) {
        Err(e) => Err(e),
        Ok(id) => match spec_get_i32(cols, "precision"@) {
            Err(e) => Err(e),
            Ok(precision) => match spec_get_i32(cols, "iso4217"@) {
                Err(e) => Err(e),
                Ok(iso4217) => match spec_get_text(cols, "name"@) {
                    Err(e) => Err(e),
                    Ok(name) => match spec_get_text(cols, "currency_type"@) {
                        Err(e) => Err(e),
                        Ok(t) => match spec_currency_type_of(t) {
                            None => Err(ErrorView::ValueRejected("currency_type"@)),
                            Some(currency_type) => Ok(CurrencyView {
                                code: id,
                                precision: narrow_u8(precision),
                                iso4217: narrow_u16(iso4217),
                                name: name,
                                currency_type,
                            }),
                        },
                    },
                },
            },
        },
    }
}

/// A decoded currency, as one row of the `currency` table yields it.
#[derive(Debug, Clone)]
pub struct CurrencyModel(pub Currency);

impl View for CurrencyModel {
    type V = CurrencyView;

    open spec fn view(&self) -> CurrencyView {
        self.0@
    }
}

/// Mathematical image of a currency decode's outcome.
pub open spec fn currency_result_view(r: Result<CurrencyModel, DecodeError>) -> Result<
    CurrencyView,
    ErrorView,
> {
    match r {
        Ok(m) => Ok(m@),
        Err(e) => Err(e@),
    }
}

impl CurrencyModel {
    /// Decode one row into a currency: read `id`, `precision`, `iso4217`,
    /// `name` and `currency_type`, narrow the two integers, decode the
    /// discriminant, and construct. The first failing column decides the
    /// error; no partially decoded value is ever returned.
    pub fn from_row(row: &Row) -> (r: Result<CurrencyModel, DecodeError>)
        ensures
            currency_result_view(r) == spec_decode_currency(row@),
    {
        let id = match row.get_text("id") {
            Ok(v) => v,
            Err(e) => return Err(e),
        };
        let precision = match row.get_i32("precision") {
            Ok(v) => v,
            Err(e) => return Err(e),
        };
        let iso4217 = match row.get_i32("iso4217") {
            Ok(v) => v,
            Err(e) => return Err(e),
        };
        let name = match row.get_text("name") {
            Ok(v) => v,
            Err(e) => return Err(e),
        };
        let currency_type_text = match row.get_text("currency_type") {
            Ok(v) => v,
            Err(e) => return Err(e),
        };
        let currency_type = match currency_type_from_text(currency_type_text.as_str()) {
            Some(t) => t,
            None => {
                return Err(DecodeError::ValueRejected { column: "currency_type".to_owned() });
            },
        };
        let precision_u8: u8 = #[verifier::truncate] (precision as u8);
        let iso4217_u16: u16 = #[verifier::truncate] (iso4217 as u16);
        let currency = Currency::new(id, precision_u8, iso4217_u16, name, currency_type);
        Ok(CurrencyModel(currency))
    }
}

/// The five column names the currency projection requires.
pub open spec fn is_currency_column(name: Seq<char>) -> bool {
    ||| name == "id"@
    ||| name == "precision"@
    ||| name == "iso4217"@
    ||| name == "name"@
    ||| name == "currency_type"@
}

/// The typed read the currency decoder makes of this required column
/// succeeds: an integer read for `precision` and `iso4217`, a text read
/// otherwise.
pub open spec fn currency_read_ok(cols: Seq<ColumnView>, name: Seq<char>) -> bool {
    if name == "precision"@ || name == "iso4217"@ {
        spec_get_i32(cols, name) is Ok
    } else {
        spec_get_text(cols, name) is Ok
    }
}

/// Round trip on a valid row: when each required column is present with
/// its expected type and the discriminant is a known one, decoding
/// succeeds and every output field equals the stored column value, the
/// two integers narrowed.
pub proof fn lemma_currency_round_trip(
    cols: Seq<ColumnView>,
    id: Seq<char>,
    precision: i32,
    iso4217: i32,
    name: Seq<char>,
    t: Seq<char>,
    currency_type: CurrencyType,
)
    requires
        spec_get_text(cols, "id"@) == Ok::<Seq<char>, ErrorView>(id),
        spec_get_i32(cols, "precision"@) == Ok::<i32, ErrorView>(precision),
        spec_get_i32(cols, "iso4217"@) == Ok::<i32, ErrorView>(iso4217),
        spec_get_text(cols, "name"@) == Ok::<Seq<char>, ErrorView>(name),
        spec_get_text(cols, "currency_type"@) == Ok::<Seq<char>, ErrorView>(t),
        spec_currency_type_of(t) == Some(currency_type),
    ensures
        spec_decode_currency(cols) == Ok::<CurrencyView, ErrorView>(CurrencyView {
            code: id,
            precision: narrow_u8(precision),
            iso4217: narrow_u16(iso4217),
            name: name,
            currency_type: currency_type,
        }),
{
}

/// A row missing a required column never decodes; and when every other
/// required read succeeds, the decode fails precisely with the
/// missing-column error naming that column.
pub proof fn lemma_currency_missing_column(cols: Seq<ColumnView>, name: Seq<char>)
    requires
        is_currency_column(name),
        lookup(cols, name) is None,
    ensures
        spec_decode_currency(cols) is Err,
        (forall|other: Seq<char>|
            is_currency_column(other) && other != name ==> #[trigger] currency_read_ok(
                cols,
                other,
            )) ==> spec_decode_currency(cols) == Err::<CurrencyView, ErrorView>(
            ErrorView::ColumnMissing(name),
        ),
{
    reveal_strlit("id");
    reveal_strlit("precision");
    reveal_strlit("iso4217");
    reveal_strlit("name");
    reveal_strlit("currency_type");
    assert("id"@.len() == 2);
    assert("precision"@.len() == 9);
    assert("iso4217"@.len() == 7);
    assert("name"@.len() == 4);
    assert("currency_type"@.len() == 13);
    if forall|other: Seq<char>|
        is_currency_column(other) && other != name ==> #[trigger] currency_read_ok(cols, other) {
        if name == "id"@ {
        } else if name == "precision"@ {
            assert(currency_read_ok(cols, "id"@));
        } else if name == "iso4217"@ {
            assert(currency_read_ok(cols, "id"@));
            assert(currency_read_ok(cols, "precision"@));
        } else if name == "name"@ {
            assert(currency_read_ok(cols, "id"@));
            assert(currency_read_ok(cols, "precision"@));
            assert(currency_read_ok(cols, "iso4217"@));
        } else {
            assert(currency_read_ok(cols, "id"@));
            assert(currency_read_ok(cols, "precision"@));
            assert(currency_read_ok(cols, "iso4217"@));
            assert(currency_read_ok(cols, "name"@));
        }
    }
}

/// An unknown currency-type discriminant is rejected, never silently
/// defaulted: decoding fails, and when the four reads before that column
/// succeed, the error names `currency_type` as the rejected column.
pub proof fn lemma_currency_unknown_discriminant(cols: Seq<ColumnView>, t: Seq<char>)
    requires
        spec_get_text(cols, "currency_type"@) == Ok::<Seq<char>, ErrorView>(t),
        spec_currency_type_of(t) is None,
    ensures
        spec_decode_currency(cols) is Err,
        (spec_get_text(cols, "id"@) is Ok && spec_get_i32(cols, "precision"@) is Ok
            && spec_get_i32(cols, "iso4217"@) is Ok && spec_get_text(cols, "name"@) is Ok)
            ==> spec_decode_currency(cols) == Err::<CurrencyView, ErrorView>(
            ErrorView::ValueRejected("currency_type"@),
        ),
{
}

} // verus!
