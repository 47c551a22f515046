//! Delivery units and their wire format.
//!
//! A [`Batch`] groups one required metadata record with up to three optional
//! records (transaction, span, error). Each record is held as the JSON text
//! of one already-assembled object. The wire format is line-delimited JSON:
//! one object per present record, each wrapping the record under its field
//! name, in the fixed order metadata, transaction, span, error.

use vstd::prelude::*;
use vstd::string::StringExecFns;

verus! {

/// The mathematical view of a batch: each record as a character sequence.
pub struct BatchView {
    pub metadata: Seq<char>,
    pub transaction: Option<Seq<char>>,
    pub span: Option<Seq<char>>,
    pub error: Option<Seq<char>>,
}

/// Holds when no character of `s` is a raw newline, so that `s` fits on one
/// line of a line-delimited body.
pub open spec fn line_free(s: Seq<char>) -> bool {
    forall|i: int| 0 <= i < s.len() ==> s[i] != '\n'
}

/// One line of the batch body: the record text wrapped in an object under its
/// field name, followed by a newline. `prefix` is the opening brace, the
/// quoted field name and the colon.
pub open spec fn record_line(prefix: Seq<char>, text: Seq<char>) -> Seq<char> {
    prefix + text + "}\n"@
}

/// The line of an optional record: empty when the record is absent.
pub open spec fn opt_record_line(prefix: Seq<char>, text: Option<Seq<char>>) -> Seq<char> {
    match text {
        Some(t) => record_line(prefix, t),
        None => Seq::<char>::empty(),
    }
}

impl BatchView {
    /// Every record's text fits on one line.
    pub open spec fn wf(self) -> bool {
        &&& line_free(self.metadata)
        &&& (self.transaction matches Some(t) ==> line_free(t))
        &&& (self.span matches Some(t) ==> line_free(t))
        &&& (self.error matches Some(t) ==> line_free(t))
    }

    /// The canonical line-delimited JSON body of the batch: one line per
    /// present record, metadata always first, in the fixed field order.
    pub open spec fn ndjson(self) -> Seq<char> {
        record_line("{\"metadata\":"@, self.metadata)
            + opt_record_line("{\"transaction\":"@, self.transaction)
            + opt_record_line("{\"span\":"@, self.span)
            + opt_record_line("{\"error\":"@, self.error)
    }
}

/// One delivery unit: required metadata plus optional transaction, span and
/// error records, each as the JSON text of one object. Immutable once built.
pub struct Batch {
    pub metadata: String,
    pub transaction: Option<String>,
    pub span: Option<String>,
    pub error: Option<String>,
}

impl View for Batch {
    type V = BatchView;

    open spec fn view(&self) -> BatchView {
        BatchView {
            metadata: self.metadata@,
            transaction: match self.transaction {
                Some(t) => Some(t@),
                None => None,
            },
            span: match self.span {
                Some(t) => Some(t@),
                None => None,
            },
            error: match self.error {
                Some(t) => Some(t@),
                None => None,
            },
        }
    }
}

#[verifier::external_type_specification]
#[verifier::external_body]
pub struct ExValue(serde_json::Value);

#[verifier::external_type_specification]
#[verifier::external_body]
pub struct ExJsonError(serde_json::Error);

/// Relies on serde_json::to_string. Serializing a `Value` cannot fail: the
/// serializer's documented failure conditions — a failing `Serialize` impl or
/// a map with non-string keys — cannot arise for `Value`, and the writer is
/// an in-memory vector. The compact formatter emits no whitespace of its own
/// and escapes every control character inside string values, so the returned
/// text never contains a raw newline.
#[verifier::external_body]
fn render_value(v: &serde_json::Value) -> (r: Result<String, serde_json::Error>)
    ensures
        r is Ok,
        r matches Ok(s) ==> line_free(s@),
{
    serde_json::to_string(v)
}

impl Batch {
    /// A batch over records already rendered as JSON text. Each record must
    /// fit on one line — any JSON serializer escapes the newlines inside a
    /// rendered object, so every rendered record does — or the line framing
    /// of the wire format would break.
    pub fn new(
        metadata: String,
        transaction: Option<String>,
        span: Option<String>,
        error: Option<String>,
    ) -> (r: Batch)
        requires
            line_free(metadata@),
            (transaction matches Some(t) ==> line_free(t@)),
            (span matches Some(t) ==> line_free(t@)),
            (error matches Some(t) ==> line_free(t@)),
        ensures
            r == (Batch { metadata, transaction, span, error }),
            r@.wf(),
    {
        Batch { metadata, transaction, span, error }
    }

    /// A batch over structured JSON values, rendered here to text. It cannot
    /// fail, as the original records cannot: serializing a `Value` always
    /// succeeds.
    pub fn from_values(
        metadata: &serde_json::Value,
        transaction: Option<&serde_json::Value>,
        span: Option<&serde_json::Value>,
        error: Option<&serde_json::Value>,
    ) -> (r: Batch)
        ensures
            r@.wf(),
            r.transaction is Some <==> transaction is Some,
            r.span is Some <==> span is Some,
            r.error is Some <==> error is Some,
    {
        let metadata_text = match render_value(metadata) {
            Ok(s) => s,
            Err(_) => unreached(),
        };
        let transaction_text = match transaction {
            Some(v) => match render_value(v) {
                Ok(s) => Some(s),
                Err(_) => unreached(),
            },
            None => None,
        };
        let span_text = match span {
            Some(v) => match render_value(v) {
                Ok(s) => Some(s),
                Err(_) => unreached(),
            },
            None => None,
        };
        let error_text = match error {
            Some(v) => match render_value(v) {
                Ok(s) => Some(s),
                Err(_) => unreached(),
            },
            None => None,
        };
        Batch::new(metadata_text, transaction_text, span_text, error_text)
    }

    /// The line-delimited JSON body of this batch, exactly as sent on the
    /// wire: one `{"<field>":<record>}` object per present record, each on
    /// its own line, metadata first, then transaction, span and error.
    pub fn to_ndjson(&self) -> (r: String)
        ensures
            r@ == self@.ndjson(),
    {
        let mut out = String::new();
        out.append("{\"metadata\":");
        out.append(self.metadata.as_str());
        out.append("}\n");
        if let Some(t) = &self.transaction {
            out.append("{\"transaction\":");
            out.append(t.as_str());
            out.append("}\n");
        }
        if let Some(t) = &self.span {
            out.append("{\"span\":");
            out.append(t.as_str());
            out.append("}\n");
        }
        if let Some(t) = &self.error {
            out.append("{\"error\":");
            out.append(t.as_str());
            out.append("}\n");
        }
        proof {
            assert(out@ =~= self@.ndjson());
        }
        out
    }
}

/// How many raw newline characters `s` holds: the number of lines the text
/// contributes to a line-delimited body.
pub open spec fn newline_count(s: Seq<char>) -> nat
    decreases s.len(),
{
    if s.len() == 0 {
        0
    } else {
        newline_count(s.drop_last()) + if s.last() == '\n' {
            1nat
        } else {
            0nat
        }
    }
}

proof fn lemma_newline_count_add(a: Seq<char>, b: Seq<char>)
    ensures
        newline_count(a + b) == newline_count(a) + newline_count(b),
    decreases b.len(),
{
    if b.len() == 0 {
        assert(a + b =~= a);
    } else {
        lemma_newline_count_add(a, b.drop_last());
        assert((a + b).drop_last() =~= a + b.drop_last());
        assert((a + b).last() == b.last());
    }
}

proof fn lemma_newline_count_line_free(s: Seq<char>)
    requires
        line_free(s),
    ensures
        newline_count(s) == 0,
    decreases s.len(),
{
    if s.len() > 0 {
        lemma_newline_count_line_free(s.drop_last());
    }
}

proof fn lemma_terminator_newline_count()
    ensures
        newline_count("}\n"@) == 1,
{
    reveal_strlit("}\n");
    let s = "}\n"@;
    assert(s.len() == 2);
    assert(s.last() == '\n');
    assert(s.drop_last().last() == s[0]);
    assert(newline_count(s.drop_last().drop_last()) == 0);
    assert(newline_count(s.drop_last()) == 0);
    assert(newline_count(s) == 1);
}

proof fn lemma_record_line_one_newline(prefix: Seq<char>, text: Seq<char>)
    requires
        line_free(prefix),
        line_free(text),
    ensures
        newline_count(record_line(prefix, text)) == 1,
{
    lemma_newline_count_line_free(prefix);
    lemma_newline_count_line_free(text);
    lemma_terminator_newline_count();
    lemma_newline_count_add(prefix, text);
    lemma_newline_count_add(prefix + text, "}\n"@);
    assert(record_line(prefix, text) =~= (prefix + text) + "}\n"@);
}

impl BatchView {
    /// How many records the batch holds; metadata always counts.
    pub open spec fn record_count(self) -> nat {
        1 + (if self.transaction is Some {
            1nat
        } else {
            0nat
        }) + (if self.span is Some {
            1nat
        } else {
            0nat
        }) + (if self.error is Some {
            1nat
        } else {
            0nat
        })
    }
}

/// Law: one line per record. For a well-formed batch the serialized body
/// holds exactly one newline per present record — a batch with only metadata
/// is one line, a batch with all four records is four lines, and nothing in
/// a record can open a line of its own.
pub proof fn lemma_one_line_per_record(b: BatchView)
    requires
        b.wf(),
    ensures
        newline_count(b.ndjson()) == b.record_count(),
{
    reveal_strlit("{\"metadata\":");
    reveal_strlit("{\"transaction\":");
    reveal_strlit("{\"span\":");
    reveal_strlit("{\"error\":");
    assert(line_free("{\"metadata\":"@));
    assert(line_free("{\"transaction\":"@));
    assert(line_free("{\"span\":"@));
    assert(line_free("{\"error\":"@));

    let metadata_line = record_line("{\"metadata\":"@, b.metadata);
    let transaction_line = opt_record_line("{\"transaction\":"@, b.transaction);
    let span_line = opt_record_line("{\"span\":"@, b.span);
    let error_line = opt_record_line("{\"error\":"@, b.error);

    lemma_record_line_one_newline("{\"metadata\":"@, b.metadata);
    match b.transaction {
        Some(t) => lemma_record_line_one_newline("{\"transaction\":"@, t),
        None => (),
    }
    match b.span {
        Some(t) => lemma_record_line_one_newline("{\"span\":"@, t),
        None => (),
    }
    match b.error {
        Some(t) => lemma_record_line_one_newline("{\"error\":"@, t),
        None => (),
    }

    lemma_newline_count_add(metadata_line, transaction_line);
    lemma_newline_count_add(metadata_line + transaction_line, span_line);
    lemma_newline_count_add(metadata_line + transaction_line + span_line, error_line);
}

} // verus!
