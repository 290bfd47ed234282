use vstd::prelude::*;

use crate::error::{DecodeError, ErrorView};
use crate::intern::{intern, interned_eq, interned_str, interned_text};
use crate::row::{lookup, spec_get_text, Row};
use crate::row::ColumnView;
use crate::text::{is_valid_u64_text, parse_u64, u64_text_value};

verus! {

/// A nanosecond-resolution instant anchored to the Unix epoch.
#[derive(Debug, Clone, Copy, PartialEq, Eq, Structural)]
pub struct UnixNanos(pub u64);

/// A timestamped signal record: interned data-type tag and metadata, a
/// verbatim text payload whose semantics stay opaque here, and the event
/// and initialization instants. No order between the two instants is
/// enforced; that is a downstream concern.
#[derive(Debug, Clone)]
pub struct Signal {
    pub data_type: ustr::Ustr,
    pub metadata: ustr::Ustr,
    pub value: String,
    pub ts_event: UnixNanos,
    pub ts_init: UnixNanos,
}

/// Mathematical image of a signal; the interned fields appear as the text
/// their handles stand for.
pub struct SignalView {
    pub data_type: Seq<char>,
    pub metadata: Seq<char>,
    pub value: Seq<char>,
    pub ts_event: u64,
    pub ts_init: u64,
}

impl View for Signal {
    type V = SignalView;

    open spec fn view(&self) -> SignalView {
        SignalView {
            data_type: interned_text(self.data_type),
            metadata: interned_text(self.metadata),
            value: self.value@,
            ts_event: self.ts_event.0,
            ts_init: self.ts_init.0,
        }
    }
}

impl Signal {
    /// Construct a signal from its five decoded fields.
    pub fn new(
        data_type: ustr::Ustr,
        metadata: ustr::Ustr,
        value: String,
        ts_event: UnixNanos,
        ts_init: UnixNanos,
    ) -> (s: Signal)
        ensures
            s@ == (SignalView {
                data_type: interned_text(data_type),
                metadata: interned_text(metadata),
                value: value@,
                ts_event: ts_event.0,
                ts_init: ts_init.0,
            }),
    {
        Signal { data_type, metadata, value, ts_event, ts_init }
    }

    /// The interned data-type tag, read back as text.
    pub fn data_type_str(&self) -> (r: &str)
        ensures
            r@ == self@.data_type,
    {
        interned_str(&self.data_type)
    }

    /// The interned metadata, read back as text.
    pub fn metadata_str(&self) -> (r: &str)
        ensures
            r@ == self@.metadata,
    {
        interned_str(&self.metadata)
    }
}

/// Whether two signals carry the same data-type tag, decided on the
/// interned representatives alone, without touching the text.
pub fn same_data_type(a: &Signal, b: &Signal) -> (r: bool)
    ensures
        r == (a@.data_type == b@.data_type),
{
    interned_eq(&a.data_type, &b.data_type)
}

/// The whole signal decode as a function of the row: the five text columns
/// read in order, each timestamp parsed right after its read, the first
/// failure deciding the error.
pub open spec fn spec_decode_signal(cols: Seq<ColumnView>) -> Result<SignalView, ErrorView> {
    match spec_get_text(cols, "data_type"@) {
        Err(e) => Err(e),
        Ok(data_type) => match spec_get_text(cols, "metadata"@) {
            Err(e) => Err(e),
            Ok(metadata) => match spec_get_text(cols, "value"@) {
                Err(e) => Err(e),
                Ok(value) => match spec_get_text(cols, "ts_event"@) {
                    Err(e) => Err(e),
                    Ok(ts_event) => if !is_valid_u64_text(ts_event) {
                        Err(ErrorView::ValueRejected("ts_event"@))
                    } else {
                        match spec_get_text(cols, "ts_init"@) {
                            Err(e) => Err(e),
                            Ok(ts_init) => if !is_valid_u64_text(ts_init) {
                                Err(ErrorView::ValueRejected("ts_init"@))
                            } else {
                                Ok(SignalView {
                                    data_type,
                                    metadata,
                                    value,
                                    ts_event: u64_text_value(ts_event) as u64,
                                    ts_init: u64_text_value(ts_init) as u64,
                                })
                            },
                        }
                    },
                },
            },
        },
    }
}

/// A decoded signal, as one row of the signal table yields it.
#[derive(Debug, Clone)]
pub struct SignalModel(pub Signal);

impl View for SignalModel {
    type V = SignalView;

    open spec fn view(&self) -> SignalView {
        self.0@
    }
}

/// Mathematical image of a signal decode's outcome.
pub open spec fn signal_result_view(r: Result<SignalModel, DecodeError>) -> Result<
    SignalView,
    ErrorView,
> {
    match r {
        Ok(m) => Ok(m@),
        Err(e) => Err(e@),
    }
}

impl SignalModel {
    /// Decode one row into a signal: read `data_type` and `metadata` as
    /// text and intern them, read `value` verbatim, and parse `ts_event`
    /// and `ts_init` from their text as non-negative nanosecond counts.
    /// The first failing column decides the error; no partially decoded
    /// value is ever returned.
    pub fn from_row(row: &Row) -> (r: Result<SignalModel, DecodeError>)
        ensures
            signal_result_view(r) == spec_decode_signal(row@),
    {
        let data_type_text = match row.get_text("data_type") {
            Ok(v) => v,
            Err(e) => return Err(e),
        };
        let data_type = intern(data_type_text.as_str());
        let metadata_text = match row.get_text("metadata") {
            Ok(v) => v,
            Err(e) => return Err(e),
        };
        let metadata = intern(metadata_text.as_str());
        let value = match row.get_text("value") {
            Ok(v) => v,
            Err(e) => return Err(e),
        };
        let ts_event_text = match row.get_text("ts_event") {
            Ok(v) => v,
            Err(e) => return Err(e),
        };
        let ts_event = match parse_u64(ts_event_text.as_str()) {
            Some(n) => UnixNanos(n),
            None => {
                return Err(DecodeError::ValueRejected { column: "ts_event".to_owned() });
            },
        };
        let ts_init_text = match row.get_text("ts_init") {
            Ok(v) => v,
            Err(e) => return Err(e),
        };
        let ts_init = match parse_u64(ts_init_text.as_str()) {
            Some(n) => UnixNanos(n),
            None => {
                return Err(DecodeError::ValueRejected { column: "ts_init".to_owned() });
            },
        };
        let signal = Signal::new(data_type, metadata, value, ts_event, ts_init);
        Ok(SignalModel(signal))
    }
}

/// The five column names the signal projection requires.
pub open spec fn is_signal_column(name: Seq<char>) -> bool {
    ||| name == "data_type"@
    ||| name == "metadata"@
    ||| name == "value"@
    ||| name == "ts_event"@
    ||| name == "ts_init"@
}

/// The read the signal decoder makes of this required column succeeds:
/// a text read, and for the two timestamp columns also the parse of that
/// text as a non-negative integer.
pub open spec fn signal_read_ok(cols: Seq<ColumnView>, name: Seq<char>) -> bool {
    &&& spec_get_text(cols, name) is Ok
    &&& (name == "ts_event"@ || name == "ts_init"@) ==> is_valid_u64_text(
        spec_get_text(cols, name)->Ok_0,
    )
}

/// Round trip on a valid row: five text columns present, both timestamp
/// texts valid, decoding succeeds and every output field equals the
/// stored text, the timestamps as their parsed values.
pub proof fn lemma_signal_round_trip(
    cols: Seq<ColumnView>,
    data_type: Seq<char>,
    metadata: Seq<char>,
    value: Seq<char>,
    ts_event: Seq<char>,
    ts_init: Seq<char>,
)
    requires
        spec_get_text(cols, "data_type"@) == Ok::<Seq<char>, ErrorView>(data_type),
        spec_get_text(cols, "metadata"@) == Ok::<Seq<char>, ErrorView>(metadata),
        spec_get_text(cols, "value"@) == Ok::<Seq<char>, ErrorView>(value),
        spec_get_text(cols, "ts_event"@) == Ok::<Seq<char>, ErrorView>(ts_event),
        spec_get_text(cols, "ts_init"@) == Ok::<Seq<char>, ErrorView>(ts_init),
        is_valid_u64_text(ts_event),
        is_valid_u64_text(ts_init),
    ensures
        spec_decode_signal(cols) == Ok::<SignalView, ErrorView>(SignalView {
            data_type: data_type,
            metadata: metadata,
            value: value,
            ts_event: u64_text_value(ts_event) as u64,
            ts_init: u64_text_value(ts_init) as u64,
        }),
{
}

/// A row missing a required column never decodes; and when every other
/// required read succeeds, the decode fails precisely with the
/// missing-column error naming that column.
pub proof fn lemma_signal_missing_column(cols: Seq<ColumnView>, name: Seq<char>)
    requires
        is_signal_column(name),
        lookup(cols, name) is None,
    ensures
        spec_decode_signal(cols) is Err,
        (forall|other: Seq<char>|
            is_signal_column(other) && other != name ==> #[trigger] signal_read_ok(cols, other))
            ==> spec_decode_signal(cols) == Err::<SignalView, ErrorView>(
            ErrorView::ColumnMissing(name),
        ),
{
    reveal_strlit("data_type");
    reveal_strlit("metadata");
    reveal_strlit("value");
    reveal_strlit("ts_event");
    reveal_strlit("ts_init");
    assert("data_type"@.len() == 9);
    assert("metadata"@.len() == 8);
    assert("value"@.len() == 5);
    assert("ts_event"@.len() == 8);
    assert("ts_init"@.len() == 7);
    assert("metadata"@[0] == 'm' && "ts_event"@[0] == 't');
    if forall|other: Seq<char>|
        is_signal_column(other) && other != name ==> #[trigger] signal_read_ok(cols, other) {
        if name == "data_type"@ {
        } else if name == "metadata"@ {
            assert(signal_read_ok(cols, "data_type"@));
        } else if name == "value"@ {
            assert(signal_read_ok(cols, "data_type"@));
            assert(signal_read_ok(cols, "metadata"@));
        } else if name == "ts_event"@ {
            assert(signal_read_ok(cols, "data_type"@));
            assert(signal_read_ok(cols, "metadata"@));
            assert(signal_read_ok(cols, "value"@));
        } else {
            assert(signal_read_ok(cols, "data_type"@));
            assert(signal_read_ok(cols, "metadata"@));
            assert(signal_read_ok(cols, "value"@));
            assert(signal_read_ok(cols, "ts_event"@));
        }
    }
}

/// Timestamp text that is not a valid non-negative integer fails the
/// decode; when everything the decoder reads before that column succeeds,
/// the error names the column as rejected.
pub proof fn lemma_signal_bad_timestamp(cols: Seq<ColumnView>, name: Seq<char>, t: Seq<char>)
    requires
        name == "ts_event"@ || name == "ts_init"@,
        spec_get_text(cols, name) == Ok::<Seq<char>, ErrorView>(t),
        !is_valid_u64_text(t),
    ensures
        spec_decode_signal(cols) is Err,
        (forall|other: Seq<char>|
            is_signal_column(other) && other != name ==> #[trigger] signal_read_ok(cols, other))
            ==> spec_decode_signal(cols) == Err::<SignalView, ErrorView>(
            ErrorView::ValueRejected(name),
        ),
{
    reveal_strlit("data_type");
    reveal_strlit("metadata");
    reveal_strlit("value");
    reveal_strlit("ts_event");
    reveal_strlit("ts_init");
    assert("data_type"@.len() == 9);
    assert("metadata"@.len() == 8);
    assert("value"@.len() == 5);
    assert("ts_event"@.len() == 8);
    assert("ts_init"@.len() == 7);
    assert("metadata"@[0] == 'm' && "ts_event"@[0] == 't');
    if forall|other: Seq<char>|
        is_signal_column(other) && other != name ==> #[trigger] signal_read_ok(cols, other) {
        if name == "ts_event"@ {
            assert(signal_read_ok(cols, "data_type"@));
            assert(signal_read_ok(cols, "metadata"@));
            assert(signal_read_ok(cols, "value"@));
        } else {
            assert(signal_read_ok(cols, "data_type"@));
            assert(signal_read_ok(cols, "metadata"@));
            assert(signal_read_ok(cols, "value"@));
            assert(signal_read_ok(cols, "ts_event"@));
        }
    }
}

/// Interning is consistent across decodes: two successfully decoded
/// signals carry equal data-type text exactly when the rows' stored
/// `data_type` text is equal. [`same_data_type`] decides that equality on
/// the interned representatives alone.
pub proof fn lemma_data_type_interning(cols1: Seq<ColumnView>, cols2: Seq<ColumnView>)
    requires
        spec_decode_signal(cols1) is Ok,
        spec_decode_signal(cols2) is Ok,
    ensures
        (spec_decode_signal(cols1)->Ok_0.data_type == spec_decode_signal(cols2)->Ok_0.data_type)
            <==> (spec_get_text(cols1, "data_type"@) == spec_get_text(cols2, "data_type"@)),
{
}

} // verus!
