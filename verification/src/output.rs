//! How results are laid out: the output formats and what each step of writing a result set does
//! in each of them.
use vstd::prelude::*;
use vstd::utf8::encode_utf8;

verus! {

/// A CSV writer of the `csv_core` crate.
#[verifier::external_type_specification]
#[verifier::external_body]
pub struct ExCsvWriter(csv_core::Writer);

/// A CSV writer in its default configuration: fields delimited by `,`, records terminated by
/// `\n`, quoted with `"` only where needed, and quotes inside a quoted field doubled.
///
/// Trusted: calls `csv_core::Writer::new`; what the writer then writes is stated by the methods
/// of `CsvWriter`.
#[verifier::external_body]
fn csv_writer() -> csv_core::Writer {
    csv_core::Writer::new()
}

/// Whether a byte makes the field that holds it quoted: the delimiter, the quote, or a line
/// break.
pub open spec fn csv_special(b: u8) -> bool {
    b == 44 || b == 34 || b == 13 || b == 10
}

/// Whether a field must be quoted.
pub open spec fn needs_quotes(field: Seq<u8>) -> bool {
    exists|i: int| 0 <= i < field.len() && csv_special(#[trigger] field[i])
}

/// A field's bytes with every quote doubled.
pub open spec fn double_quotes(field: Seq<u8>) -> Seq<u8>
    decreases field.len(),
{
    if field.len() == 0 {
        Seq::empty()
    } else {
        double_quotes(field.drop_last()) + if field.last() == 34 {
            seq![34u8, 34u8]
        } else {
            seq![field.last()]
        }
    }
}

/// What the writer puts out for a whole field before the field is closed: the field as it is,
/// or an opening quote and the field with its quotes doubled.
pub open spec fn field_start(field: Seq<u8>) -> Seq<u8> {
    if needs_quotes(field) {
        seq![34u8] + double_quotes(field)
    } else {
        field
    }
}

/// A field as it stands in a CSV row: as it is, or quoted with its quotes doubled.
pub open spec fn field_bytes(field: Seq<u8>) -> Seq<u8> {
    if needs_quotes(field) {
        seq![34u8] + double_quotes(field) + seq![34u8]
    } else {
        field
    }
}

/// The fields of a CSV row, each followed by a delimiter.
pub open spec fn csv_fields(values: Seq<String>) -> Seq<u8>
    decreases values.len(),
{
    if values.len() == 0 {
        Seq::empty()
    } else {
        csv_fields(values.drop_last()) + field_bytes(encode_utf8(values.last()@)) + seq![44u8]
    }
}

/// The bytes of a CSV row of these values: each value's UTF-8 bytes as a field followed by a
/// delimiter, a pair of quotes for a row with no values, and the record terminator.
pub open spec fn csv_row_bytes(values: Seq<String>) -> Seq<u8> {
    csv_fields(values) + (if values.len() == 0 {
        seq![34u8, 34u8]
    } else {
        Seq::empty()
    }) + seq![10u8]
}

/// What the contracts know of a CSV writer's state: whether a field has been started, whether
/// the started field is quoted, and whether nothing of the current record has been written.
struct CsvWriterState {
    in_field: bool,
    quoting: bool,
    record_empty: bool,
}

/// The state of a writer at the start of a record.
spec fn record_start() -> CsvWriterState {
    CsvWriterState { in_field: false, quoting: false, record_empty: true }
}

/// A CSV writer together with the state that its contracts speak of.
struct CsvWriter {
    writer: csv_core::Writer,
    state: Ghost<CsvWriterState>,
}

impl CsvWriter {
    spec fn state(&self) -> CsvWriterState {
        self.state@
    }

    /// A writer at the start of a record.
    fn new() -> (r: CsvWriter)
        ensures
            r.state() == record_start(),
    {
        CsvWriter { writer: csv_writer(), state: Ghost(record_start()) }
    }

    /// Writes a whole field into an output buffer with room for it; returns whether all the
    /// input was taken, how many input bytes were taken and how many output bytes were written.
    ///
    /// Trusted: calls `csv_core::Writer::field`. At the start of a field the writer decides
    /// whether the field is quoted, and writes the opening quote; it then copies the input,
    /// doubling each quote in a quoted field. At most `2 + 2 * input.len()` bytes are written, so
    /// an output of that size takes all the input. What is written for a field continued by a
    /// second call, or into a buffer with too little room, is not stated.
    #[verifier::external_body]
    fn field(&mut self, input: &[u8], output: &mut Vec<u8>) -> (r: (bool, usize, usize))
        requires
            !old(self).state().in_field,
            old(output)@.len() >= 2 + 2 * input@.len(),
        ensures
            final(output)@.len() == old(output)@.len(),
            r.0,
            r.1 == input@.len(),
            r.2 == field_start(input@).len(),
            r.2 <= old(output)@.len(),
            final(output)@.take(r.2 as int) == field_start(input@),
            final(self).state() == (CsvWriterState {
                in_field: true,
                quoting: needs_quotes(input@),
                record_empty: old(self).state().record_empty && field_start(input@).len() == 0,
            }),
    {
        let (result, nin, nout) = self.writer.field(input, output.as_mut_slice());
        let taken = match result {
            csv_core::WriteResult::InputEmpty => true,
            csv_core::WriteResult::OutputFull => false,
        };
        (taken, nin, nout)
    }

    /// Writes the field delimiter, closing a quoted field first; returns whether it was written
    /// and how many bytes were.
    ///
    /// Trusted: calls `csv_core::Writer::delimiter`, which with room for two bytes writes a
    /// closing quote where the field is quoted, then `,`, and ends the field.
    #[verifier::external_body]
    fn delimiter(&mut self, output: &mut Vec<u8>) -> (r: (bool, usize))
        requires
            old(output)@.len() >= 2,
        ensures
            final(output)@.len() == old(output)@.len(),
            r.0,
            r.1 <= old(output)@.len(),
            final(output)@.take(r.1 as int) == (if old(self).state().quoting {
                seq![34u8, 44u8]
            } else {
                seq![44u8]
            }),
            final(self).state() == (CsvWriterState {
                in_field: false,
                quoting: false,
                record_empty: false,
            }),
    {
        let (result, nout) = self.writer.delimiter(output.as_mut_slice());
        let written = match result {
            csv_core::WriteResult::InputEmpty => true,
            csv_core::WriteResult::OutputFull => false,
        };
        (written, nout)
    }

    /// Writes the record terminator; returns whether it was written and how many bytes were.
    ///
    /// Trusted: calls `csv_core::Writer::terminator`, which with room for three bytes writes a
    /// pair of quotes where nothing of the record has been written, a closing quote where the
    /// field is quoted, then `\n`, and starts a new record. The call panics on a quoted field of
    /// which nothing has been written, which the `requires` leaves out.
    #[verifier::external_body]
    fn terminator(&mut self, output: &mut Vec<u8>) -> (r: (bool, usize))
        requires
            old(output)@.len() >= 3,
            !(old(self).state().record_empty && old(self).state().quoting),
        ensures
            final(output)@.len() == old(output)@.len(),
            r.0,
            r.1 <= old(output)@.len(),
            final(output)@.take(r.1 as int) == (if old(self).state().record_empty {
                seq![34u8, 34u8]
            } else {
                Seq::empty()
            }) + (if old(self).state().quoting {
                seq![34u8]
            } else {
                Seq::empty()
            }) + seq![10u8],
            final(self).state() == record_start(),
    {
        let (result, nout) = self.writer.terminator(output.as_mut_slice());
        let written = match result {
            csv_core::WriteResult::InputEmpty => true,
            csv_core::WriteResult::OutputFull => false,
        };
        (written, nout)
    }
}

/// The largest number of bytes that a CSV row of fields of these byte lengths can take: each
/// field quoted with every byte doubled, a delimiter after each, and the terminator.
pub open spec fn csv_row_bound(lengths: Seq<int>) -> int
    decreases lengths.len(),
{
    if lengths.len() == 0 {
        3
    } else {
        csv_row_bound(lengths.drop_last()) + 4 + 2 * lengths.last()
    }
}

/// The UTF-8 byte lengths of strings.
pub open spec fn byte_lengths(values: Seq<String>) -> Seq<int> {
    Seq::new(values.len(), |k: int| encode_utf8(values[k]@).len() as int)
}

proof fn lemma_csv_row_bound_positive(lengths: Seq<int>)
    requires
        forall|j: int| 0 <= j < lengths.len() ==> lengths[j] >= 0,
    ensures
        csv_row_bound(lengths) >= 3,
        forall|j: int| 0 <= j < lengths.len() ==> csv_row_bound(lengths) >= 7 + 2 * lengths[j],
    decreases lengths.len(),
{
    if lengths.len() > 0 {
        let rest = lengths.drop_last();
        assert forall|j: int| 0 <= j < rest.len() implies rest[j] >= 0 by {
            assert(rest[j] == lengths[j]);
        }
        lemma_csv_row_bound_positive(rest);
        assert forall|j: int| 0 <= j < lengths.len() implies csv_row_bound(lengths) >= 7 + 2
            * lengths[j] by {
            if j < rest.len() {
                assert(rest[j] == lengths[j]);
            }
        }
    }
}

/// Appends the first `n` bytes of `buffer` to `out`.
fn append_prefix(out: &mut Vec<u8>, buffer: &Vec<u8>, n: usize)
    requires
        n <= buffer@.len(),
    ensures
        final(out)@ == old(out)@ + buffer@.take(n as int),
{
    let mut i: usize = 0;
    while i < n
        invariant
            n <= buffer@.len(),
            i <= n,
            out@ == old(out)@ + buffer@.take(i as int),
        decreases n - i,
    {
        out.push(buffer[i]);
        assert(out@ =~= old(out)@ + buffer@.take(i + 1));
        i = i + 1;
    }
}

/// The bytes of one CSV row: each value as a field followed by a delimiter, then the record
/// terminator. The output buffer that the writer fills is large enough for any of the fields,
/// so the writer takes every field whole.
pub fn csv_row(values: &Vec<String>) -> (r: Vec<u8>)
    requires
        csv_row_bound(byte_lengths(values@)) <= usize::MAX,
    ensures
        r@ == csv_row_bytes(values@),
{
    let ghost lengths = byte_lengths(values@);
    proof {
        lemma_csv_row_bound_positive(lengths);
    }
    let n = values.len();
    let mut max_len: usize = 0;
    let mut k: usize = 0;
    while k < n
        invariant
            n == values@.len(),
            lengths == byte_lengths(values@),
            csv_row_bound(lengths) <= usize::MAX,
            forall|j: int| 0 <= j < n ==> csv_row_bound(lengths) >= 7 + 2 * lengths[j],
            k <= n,
            max_len == 0 || exists|j: int| 0 <= j < n && max_len == lengths[j],
            forall|j: int| 0 <= j < k ==> lengths[j] <= max_len,
        decreases n - k,
    {
        let len = values[k].as_str().as_bytes().len();
        assert(len == lengths[k as int]);
        if len > max_len {
            max_len = len;
        }
        k = k + 1;
    }
    let buffer_len: usize = if max_len == 0 {
        3
    } else {
        2 + 2 * max_len
    };
    let mut buffer: Vec<u8> = Vec::new();
    let mut i: usize = 0;
    while i < buffer_len
        invariant
            i <= buffer_len,
            buffer@.len() == i,
        decreases buffer_len - i,
    {
        buffer.push(0);
        i = i + 1;
    }
    let mut writer = CsvWriter::new();
    let mut out: Vec<u8> = Vec::new();
    let mut k: usize = 0;
    while k < n
        invariant
            n == values@.len(),
            lengths == byte_lengths(values@),
            forall|j: int| 0 <= j < n ==> lengths[j] <= max_len,
            buffer_len >= 3,
            buffer_len >= 2 + 2 * max_len,
            buffer@.len() == buffer_len,
            k <= n,
            out@ == csv_fields(values@.take(k as int)),
            writer.state() == (CsvWriterState {
                in_field: false,
                quoting: false,
                record_empty: k == 0,
            }),
        decreases n - k,
    {
        let bytes = values[k].as_str().as_bytes();
        assert(bytes@.len() == lengths[k as int]);
        let ghost before = out@;
        let (_taken, _consumed, written) = writer.field(bytes, &mut buffer);
        append_prefix(&mut out, &buffer, written);
        let (_delimited, written) = writer.delimiter(&mut buffer);
        append_prefix(&mut out, &buffer, written);
        proof {
            let taken = values@.take(k + 1);
            assert(taken.drop_last() =~= values@.take(k as int));
            assert(taken.last() == values@[k as int]);
            let field = bytes@;
            if needs_quotes(field) {
                assert(field_start(field) + seq![34u8, 44u8] =~= field_bytes(field) + seq![44u8]);
            }
            assert(out@ =~= csv_fields(taken));
        }
        k = k + 1;
    }
    let (_terminated, written) = writer.terminator(&mut buffer);
    append_prefix(&mut out, &buffer, written);
    proof {
        assert(values@.take(n as int) =~= values@);
        assert(out@ =~= csv_row_bytes(values@));
    }
    out
}

/// The output formats.
#[derive(Clone, Copy, PartialEq, Eq, Debug, Structural)]
pub enum Format {
    Table,
    Jsonl,
    Csv,
}

/// Where writing a result set stands.
#[derive(Clone, Copy, PartialEq, Eq, Debug, Structural)]
pub enum Formatter {
    /// CSV rows go out as they come; `written_records` once any row did.
    Csv { written_records: bool },
    /// A table is collected and printed at the end.
    Table,
    /// One JSON object per line.
    Jsonl,
}

/// What writing the header row does.
#[derive(Clone, Copy, PartialEq, Eq, Debug, Structural)]
pub enum HeaderStep {
    /// Write the header names as a CSV row.
    WriteCsvRow,
    /// Make them the table's header.
    SetTableHeader,
    /// JSON lines carry no header.
    Nothing,
}

/// What writing one result does.
#[derive(Clone, Copy, PartialEq, Eq, Debug, Structural)]
pub enum ResultStep {
    /// Write the result's cells as a CSV row.
    WriteCsvRow,
    /// Add the result's cells as a table row.
    AddTableRow,
    /// Write the result's record as a JSON line.
    WriteJsonLine,
}

impl Formatter {
    /// The state in which writing in `format` starts.
    pub fn new(format: Format) -> (r: Formatter)
        ensures
            r == match format {
                Format::Table => Formatter::Table,
                Format::Jsonl => Formatter::Jsonl,
                Format::Csv => Formatter::Csv { written_records: false },
            },
    {
        match format {
            Format::Table => Formatter::Table,
            Format::Jsonl => Formatter::Jsonl,
            Format::Csv => Formatter::Csv { written_records: false },
        }
    }

    /// Whether header names can still be written: in CSV, only before any row.
    pub open spec fn accepts_headers(self) -> bool {
        !(self matches Formatter::Csv { written_records: true })
    }

    /// Writing the header row.
    pub fn table_headers(&mut self) -> (r: HeaderStep)
        requires
            old(self).accepts_headers(),
        ensures
            r == match *old(self) {
                Formatter::Csv { .. } => HeaderStep::WriteCsvRow,
                Formatter::Table => HeaderStep::SetTableHeader,
                Formatter::Jsonl => HeaderStep::Nothing,
            },
            *final(self) == match *old(self) {
                Formatter::Csv { .. } => Formatter::Csv { written_records: true },
                other => other,
            },
    {
        match self {
            Formatter::Csv { written_records } => {
                *written_records = true;
                HeaderStep::WriteCsvRow
            },
            Formatter::Table => HeaderStep::SetTableHeader,
            Formatter::Jsonl => HeaderStep::Nothing,
        }
    }

    /// Writing one result.
    pub fn result(&mut self) -> (r: ResultStep)
        ensures
            r == match *old(self) {
                Formatter::Csv { .. } => ResultStep::WriteCsvRow,
                Formatter::Table => ResultStep::AddTableRow,
                Formatter::Jsonl => ResultStep::WriteJsonLine,
            },
            *final(self) == match *old(self) {
                Formatter::Csv { .. } => Formatter::Csv { written_records: true },
                other => other,
            },
    {
        match self {
            Formatter::Csv { written_records } => {
                *written_records = true;
                ResultStep::WriteCsvRow
            },
            Formatter::Table => ResultStep::AddTableRow,
            Formatter::Jsonl => ResultStep::WriteJsonLine,
        }
    }

    /// Whether the collected table is printed when the result set is committed.
    pub fn prints_on_commit(&self) -> (r: bool)
        ensures
            r == (*self == Formatter::Table),
    {
        match self {
            Formatter::Table => true,
            _ => false,
        }
    }
}

} // verus!
