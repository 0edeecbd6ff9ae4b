//! Text-based storage backends and the rendering of numeric arrays as
//! space-joined text lines.
//!
//! Unsigned and signed integers are rendered in plain decimal by verified
//! code; the decimal text is pinned down exactly by the spec functions
//! below. Values that are already text tokens (rendered floating-point
//! numbers) pass through unchanged.
use vstd::prelude::*;

use crate::XdmfError;
use crate::persist::FileOp;
use crate::text::{file_name_of, path_join, spec_file_name, spec_with_extension, with_extension};
use crate::values::Values;
use crate::xdmf_elements::attribute::{Center, center_to_data_tag, spec_center_data_tag};
use crate::xdmf_elements::data_item::{DataContent, XInclude};

verus! {

/// The character for one decimal digit.
pub open spec fn digit_char(d: nat) -> char {
    if d == 0 {
        '0'
    } else if d == 1 {
        '1'
    } else if d == 2 {
        '2'
    } else if d == 3 {
        '3'
    } else if d == 4 {
        '4'
    } else if d == 5 {
        '5'
    } else if d == 6 {
        '6'
    } else if d == 7 {
        '7'
    } else if d == 8 {
        '8'
    } else {
        '9'
    }
}

/// Plain decimal text of a natural number, most significant digit first,
/// with no leading zeros (a single `0` for zero).
pub open spec fn dec_nat(n: nat) -> Seq<char>
    decreases n,
{
    if n < 10 {
        seq![digit_char(n)]
    } else {
        dec_nat(n / 10) + seq![digit_char(n % 10)]
    }
}

/// Plain decimal text of an integer: a minus sign for negative values,
/// then the decimal digits of the magnitude.
pub open spec fn dec_int(i: int) -> Seq<char> {
    if i < 0 {
        seq!['-'] + dec_nat((-i) as nat)
    } else {
        dec_nat(i as nat)
    }
}

fn push_digit(out: &mut String, d: u64)
    requires
        d < 10,
    ensures
        final(out)@ == old(out)@ + seq![digit_char(d as nat)],
{
    proof {
        reveal_strlit("0");
        reveal_strlit("1");
        reveal_strlit("2");
        reveal_strlit("3");
        reveal_strlit("4");
        reveal_strlit("5");
        reveal_strlit("6");
        reveal_strlit("7");
        reveal_strlit("8");
        reveal_strlit("9");
    }
    if d == 0 {
        out.append("0");
    } else if d == 1 {
        out.append("1");
    } else if d == 2 {
        out.append("2");
    } else if d == 3 {
        out.append("3");
    } else if d == 4 {
        out.append("4");
    } else if d == 5 {
        out.append("5");
    } else if d == 6 {
        out.append("6");
    } else if d == 7 {
        out.append("7");
    } else if d == 8 {
        out.append("8");
    } else {
        out.append("9");
    }
    proof {
        assert(final(out)@ =~= old(out)@ + seq![digit_char(d as nat)]);
    }
}

/// Append the decimal digits of `n` to `out`.
pub fn append_dec_u64(out: &mut String, n: u64)
    ensures
        final(out)@ == old(out)@ + dec_nat(n as nat),
    decreases n,
{
    if n < 10 {
        push_digit(out, n);
    } else {
        append_dec_u64(out, n / 10);
        push_digit(out, n % 10);
        proof {
            assert(final(out)@ =~= old(out)@ + dec_nat(n as nat));
        }
    }
}

/// Decimal text of an unsigned 64-bit value.
pub fn dec_u64(n: u64) -> (r: String)
    ensures
        r@ == dec_nat(n as nat),
{
    let mut s = String::new();
    append_dec_u64(&mut s, n);
    proof {
        assert(s@ =~= dec_nat(n as nat));
    }
    s
}

/// Decimal text of an unsigned 128-bit value.
pub fn dec_u128(n: u128) -> (r: String)
    ensures
        r@ == dec_nat(n as nat),
{
    let mut s = String::new();
    append_dec_u128(&mut s, n);
    proof {
        assert(s@ =~= dec_nat(n as nat));
    }
    s
}

/// Append the decimal digits of `n` to `out`.
fn append_dec_u128(out: &mut String, n: u128)
    ensures
        final(out)@ == old(out)@ + dec_nat(n as nat),
    decreases n,
{
    if n < 10 {
        push_digit(out, n as u64);
    } else {
        append_dec_u128(out, n / 10);
        push_digit(out, (n % 10) as u64);
        proof {
            assert(final(out)@ =~= old(out)@ + dec_nat(n as nat));
        }
    }
}

/// Decimal text of a signed 64-bit value.
pub fn dec_i64(n: i64) -> (r: String)
    ensures
        r@ == dec_int(n as int),
{
    if n >= 0 {
        let r = dec_u64(n as u64);
        r
    } else {
        // The magnitude is computed without overflowing `i64::MIN`.
        let mag: u64 = ((-(n + 1)) as u64) + 1;
        proof {
            reveal_strlit("-");
            assert(mag as int == -(n as int));
        }
        let mut s: String = "-".to_owned();
        append_dec_u64(&mut s, mag);
        proof {
            assert(s@ =~= dec_int(n as int));
        }
        s
    }
}

/// Whether a character is a decimal digit.
pub open spec fn is_digit(c: char) -> bool {
    '0' <= c && c <= '9'
}

/// The numeric value of a decimal digit character.
pub open spec fn digit_val(c: char) -> nat {
    ((c as u32) - ('0' as u32)) as nat
}

/// Whether the text is one or more decimal digits and nothing else.
pub open spec fn is_digit_seq(s: Seq<char>) -> bool {
    forall|i: int| 0 <= i < s.len() ==> is_digit(#[trigger] s[i])
}

/// The numeric value of a digit sequence, most significant digit first.
pub open spec fn val_of_digits(s: Seq<char>) -> nat
    decreases s.len(),
{
    if s.len() == 0 {
        0
    } else {
        val_of_digits(s.drop_last()) * 10 + digit_val(s.last())
    }
}

/// A digit prefix never exceeds the value of the whole digit sequence.
proof fn lemma_val_of_digits_prefix(s: Seq<char>, k: int)
    requires
        0 <= k <= s.len(),
    ensures
        val_of_digits(s.take(k)) <= val_of_digits(s),
    decreases s.len() - k,
{
    if k < s.len() {
        lemma_val_of_digits_prefix(s, k + 1);
        assert(s.take(k + 1).drop_last() =~= s.take(k));
        assert(val_of_digits(s.take(k + 1)) == val_of_digits(s.take(k)) * 10 + digit_val(
            s.take(k + 1).last(),
        ));
    } else {
        assert(s.take(k) =~= s);
    }
}

/// Formatting an unsigned value yields pure digits that read back as the
/// same value: the decimal rendering round-trips exactly.
pub proof fn lemma_decimal_round_trip(n: nat)
    ensures
        is_digit_seq(dec_nat(n)),
        val_of_digits(dec_nat(n)) == n,
    decreases n,
{
    if n < 10 {
        assert(dec_nat(n) =~= seq![digit_char(n)]);
        assert(seq![digit_char(n)].drop_last() =~= Seq::<char>::empty());
        assert(val_of_digits(Seq::<char>::empty()) == 0);
        assert(digit_val(digit_char(n)) == n);
        assert(val_of_digits(dec_nat(n)) == val_of_digits(seq![digit_char(n)].drop_last()) * 10
            + digit_val(seq![digit_char(n)].last()));
    } else {
        lemma_decimal_round_trip(n / 10);
        let s = dec_nat(n);
        assert(s.drop_last() =~= dec_nat(n / 10));
        assert(s.last() == digit_char(n % 10));
        assert(digit_val(digit_char(n % 10)) == n % 10) by {
            let d = n % 10;
            assert(d < 10);
            assert(digit_val(digit_char(d)) == d);
        }
        assert(val_of_digits(s) == (n / 10) * 10 + n % 10);
    }
}

/// Read a plain decimal token back as an unsigned 64-bit value.
///
/// Returns the value exactly when the token is one or more decimal digits
/// and its value fits in 64 bits.
pub fn parse_dec_u64(s: &str) -> (r: Option<u64>)
    ensures
        match r {
            Some(v) => is_digit_seq(s@) && s@.len() > 0 && val_of_digits(s@) == v as nat,
            None => !(is_digit_seq(s@) && s@.len() > 0 && val_of_digits(s@) <= u64::MAX as nat),
        },
{
    let n = s.unicode_len();
    if n == 0 {
        return None;
    }
    let mut acc: u64 = 0;
    let mut i: usize = 0;
    proof {
        assert(s@.take(0) =~= Seq::<char>::empty());
    }
    while i < n
        invariant
            i <= n,
            n == s@.len(),
            is_digit_seq(s@.take(i as int)),
            acc as nat == val_of_digits(s@.take(i as int)),
        decreases n - i,
    {
        let c = s.get_char(i);
        if c < '0' || c > '9' {
            proof {
                assert(s@[i as int] == c);
                assert(!is_digit(s@[i as int]));
            }
            return None;
        }
        let d: u64 = (c as u32 as u64) - 48;
        proof {
            assert(d == digit_val(c));
            assert(d < 10);
        }
        if acc > (u64::MAX - d) / 10 {
            proof {
                let t = s@.take(i + 1);
                assert(t.drop_last() =~= s@.take(i as int));
                assert(t.last() == c);
                assert(val_of_digits(t) == (acc as nat) * 10 + d);
                assert(val_of_digits(t) > u64::MAX as nat) by (nonlinear_arith)
                    requires
                        val_of_digits(t) == (acc as nat) * 10 + (d as nat),
                        acc > (u64::MAX - d) / 10,
                        d < 10,
                ;
                lemma_val_of_digits_prefix(s@, i + 1);
            }
            return None;
        }
        proof {
            assert(acc * 10 + d <= u64::MAX) by (nonlinear_arith)
                requires
                    acc <= (u64::MAX - d) / 10,
                    d < 10,
            ;
        }
        acc = acc * 10 + d;
        i += 1;
        proof {
            let t = s@.take(i as int);
            assert(t.drop_last() =~= s@.take(i - 1));
            assert(t.last() == c);
        }
    }
    proof {
        assert(s@.take(n as int) =~= s@);
    }
    Some(acc)
}

/// One element kind that can be rendered as a text token.
pub trait FormatNumber {
    /// The token this value renders to.
    spec fn number_text(&self) -> Seq<char>;

    /// Render this value as its text token.
    fn format_number(&self) -> (r: String)
        ensures
            r@ == self.number_text(),
    ;
}

impl FormatNumber for u8 {
    open spec fn number_text(&self) -> Seq<char> {
        dec_nat(*self as nat)
    }

    fn format_number(&self) -> (r: String) {
        dec_u64(*self as u64)
    }
}

impl FormatNumber for u16 {
    open spec fn number_text(&self) -> Seq<char> {
        dec_nat(*self as nat)
    }

    fn format_number(&self) -> (r: String) {
        dec_u64(*self as u64)
    }
}

impl FormatNumber for u32 {
    open spec fn number_text(&self) -> Seq<char> {
        dec_nat(*self as nat)
    }

    fn format_number(&self) -> (r: String) {
        dec_u64(*self as u64)
    }
}

impl FormatNumber for u64 {
    open spec fn number_text(&self) -> Seq<char> {
        dec_nat(*self as nat)
    }

    fn format_number(&self) -> (r: String) {
        dec_u64(*self)
    }
}

impl FormatNumber for usize {
    open spec fn number_text(&self) -> Seq<char> {
        dec_nat(*self as nat)
    }

    fn format_number(&self) -> (r: String) {
        dec_u64(*self as u64)
    }
}

impl FormatNumber for i8 {
    open spec fn number_text(&self) -> Seq<char> {
        dec_int(*self as int)
    }

    fn format_number(&self) -> (r: String) {
        dec_i64(*self as i64)
    }
}

impl FormatNumber for i16 {
    open spec fn number_text(&self) -> Seq<char> {
        dec_int(*self as int)
    }

    fn format_number(&self) -> (r: String) {
        dec_i64(*self as i64)
    }
}

impl FormatNumber for i32 {
    open spec fn number_text(&self) -> Seq<char> {
        dec_int(*self as int)
    }

    fn format_number(&self) -> (r: String) {
        dec_i64(*self as i64)
    }
}

impl FormatNumber for i64 {
    open spec fn number_text(&self) -> Seq<char> {
        dec_int(*self as int)
    }

    fn format_number(&self) -> (r: String) {
        dec_i64(*self)
    }
}

impl FormatNumber for isize {
    open spec fn number_text(&self) -> Seq<char> {
        dec_int(*self as int)
    }

    fn format_number(&self) -> (r: String) {
        dec_i64(*self as i64)
    }
}

/// A value that is already a rendered token passes through unchanged.
impl FormatNumber for String {
    open spec fn number_text(&self) -> Seq<char> {
        self@
    }

    fn format_number(&self) -> (r: String) {
        let r = self.as_str().to_owned();
        r
    }
}

/// Tokens joined by single spaces.
pub open spec fn join_space(tokens: Seq<Seq<char>>) -> Seq<char>
    decreases tokens.len(),
{
    if tokens.len() == 0 {
        Seq::empty()
    } else if tokens.len() == 1 {
        tokens[0]
    } else {
        join_space(tokens.drop_last()) + seq![' '] + tokens.last()
    }
}

/// The tokens of a sequence of renderable values.
pub open spec fn texts_of<T: FormatNumber>(vec: Seq<T>) -> Seq<Seq<char>> {
    vec.map(|i: int, x: T| x.number_text())
}

/// Render an array of values as one space-joined line, without a newline.
pub fn array_to_string_fmt<T: FormatNumber>(vec: &Vec<T>) -> (r: String)
    ensures
        r@ == join_space(texts_of(vec@)),
{
    let mut s = String::new();
    let mut i: usize = 0;
    proof {
        reveal_strlit(" ");
        assert(texts_of::<T>(vec@.take(0)) =~= Seq::<Seq<char>>::empty());
    }
    while i < vec.len()
        invariant
            i <= vec.len(),
            s@ == join_space(texts_of(vec@.take(i as int))),
        decreases vec.len() - i,
    {
        if i > 0 {
            s.append(" ");
        }
        let t = vec[i].format_number();
        s.append(t.as_str());
        i += 1;
        proof {
            reveal_strlit(" ");
            let pre = texts_of(vec@.take(i - 1));
            let cur = texts_of(vec@.take(i as int));
            assert(cur.drop_last() =~= pre);
            assert(cur.last() == vec@[i - 1].number_text());
            if i == 1 {
                assert(s@ =~= join_space(cur));
            } else {
                assert(s@ =~= join_space(cur));
            }
        }
    }
    proof {
        assert(vec@.take(vec@.len() as int) =~= vec@);
    }
    s
}

/// Render an array of values as one space-joined line with a trailing
/// newline, appended to `out`.
pub fn array_to_writer_fmt<T: FormatNumber>(vec: &Vec<T>, out: &mut String)
    ensures
        final(out)@ == old(out)@ + join_space(texts_of(vec@)) + seq!['\n'],
{
    let line = array_to_string_fmt(vec);
    out.append(line.as_str());
    out.append("\n");
    proof {
        reveal_strlit("\n");
        assert(final(out)@ =~= old(out)@ + join_space(texts_of(vec@)) + seq!['\n']);
    }
}


/// The text line of a value array: its tokens joined by single spaces.
pub open spec fn values_line(data: Values) -> Seq<char> {
    match data {
        Values::F64(v) => join_space(texts_of(v@)),
        Values::U64(v) => join_space(texts_of(v@)),
    }
}

/// Render a value array as one space-joined line, without a newline.
pub fn values_to_string(data: &Values) -> (r: String)
    ensures
        r@ == values_line(*data),
{
    match data {
        Values::F64(v) => array_to_string_fmt(v),
        Values::U64(v) => array_to_string_fmt(v),
    }
}

/// Render a value array as one space-joined line with a trailing newline,
/// appended to `out`.
pub fn values_to_writer(data: &Values, out: &mut String)
    ensures
        final(out)@ == old(out)@ + values_line(*data) + seq!['\n'],
{
    match data {
        Values::F64(v) => array_to_writer_fmt(v, out),
        Values::U64(v) => array_to_writer_fmt(v, out),
    }
}

/// The inline backend: mesh and field arrays become literal document
/// content; nothing touches the file system.
pub struct AsciiInlineWriter {}

impl AsciiInlineWriter {
    /// Create the inline backend.
    pub fn new() -> AsciiInlineWriter {
        AsciiInlineWriter {  }
    }

    /// Render the mesh as two literal text contents: the point coordinate
    /// line and the encoded connectivity line.
    pub fn write_mesh(&mut self, points: &Vec<String>, cells: &Vec<u64>) -> (r: (
        DataContent,
        DataContent,
    ))
        ensures
            r.0 matches DataContent::Raw(p) && p@ == join_space(texts_of(points@)),
            r.1 matches DataContent::Raw(c) && c@ == join_space(texts_of(cells@)),
    {
        (DataContent::Raw(array_to_string_fmt(points)), DataContent::Raw(array_to_string_fmt(cells)))
    }

    /// Render one field array as literal text content.
    pub fn write_data(&mut self, data: &Values) -> (r: DataContent)
        ensures
            r matches DataContent::Raw(s) && s@ == values_line(*data),
    {
        DataContent::Raw(values_to_string(data))
    }
}

/// The message of the rejection for a path without a file-name part.
pub open spec fn msg_no_file_name() -> Seq<char> {
    "Base file name must have a valid file name"@
}

/// The side-file backend: each array is written to its own text file in a
/// sibling directory named by replacing the document's extension with
/// `txt`, and the document includes the file by reference.
pub struct AsciiWriter {
    /// The directory holding the side files.
    pub txt_files_dir: String,
    /// The directory's own name, used in the inclusion references.
    pub folder_name: String,
    /// The time step currently bracketed, if any.
    pub write_time: Option<String>,
}

impl AsciiWriter {
    /// Create the side-file backend for the given document path: its side
    /// directory stands beside the document, and must be created before
    /// any write. The backend is handed out exactly when the path has a
    /// file-name part; an empty path, or one ending in a separator, is
    /// rejected.
    pub fn new(base_file_name: &str) -> (r: Result<(AsciiWriter, FileOp), XdmfError>)
        ensures
            r is Ok <==> spec_file_name(base_file_name@).len() > 0,
            r matches Ok((w, op)) ==> {
                &&& w.txt_files_dir@ == spec_with_extension(base_file_name@, "txt"@)
                &&& w.folder_name@ == spec_file_name(spec_with_extension(base_file_name@, "txt"@))
                &&& w.write_time is None
                &&& op matches FileOp::CreateDirAll { path } && path@ == w.txt_files_dir@
            },
            r matches Err(e) ==> e is InvalidInput && e.spec_message() == msg_no_file_name(),
    {
        let raw_base_name = file_name_of(base_file_name);
        if raw_base_name.as_str().unicode_len() == 0 {
            return Err(XdmfError::InvalidInput("Base file name must have a valid file name".to_owned()));
        }
        let txt_files_dir = with_extension(base_file_name, "txt");
        let raw_file_name = file_name_of(txt_files_dir.as_str());
        let dir_copy = txt_files_dir.as_str().to_owned();
        Ok((
            AsciiWriter { txt_files_dir, folder_name: raw_file_name, write_time: None },
            FileOp::CreateDirAll { path: dir_copy },
        ))
    }

    /// Write the mesh as two side files, `points.txt` and `cells.txt`,
    /// each one formatted line with a trailing newline, and return the two
    /// inclusion references.
    pub fn write_mesh(&mut self, points: &Vec<String>, cells: &Vec<u64>) -> (r: (
        (DataContent, DataContent),
        Vec<FileOp>,
    ))
        ensures
            *final(self) == *old(self),
            r.0.0 matches DataContent::Include(x) && x.file_path@ == old(self).folder_name@
                + seq!['/'] + "points.txt"@ && (x.parse matches Some(p) && p@ == "text"@),
            r.0.1 matches DataContent::Include(x) && x.file_path@ == old(self).folder_name@
                + seq!['/'] + "cells.txt"@ && (x.parse matches Some(p) && p@ == "text"@),
            r.1@.len() == 2,
            r.1@[0] matches FileOp::WriteFile { path, contents } && path@ == old(self).txt_files_dir@ + seq!['/'] + "points.txt"@ && contents@ == join_space(
                texts_of(points@),
            ) + seq!['\n'],
            r.1@[1] matches FileOp::WriteFile { path, contents } && path@ == old(self).txt_files_dir@ + seq!['/'] + "cells.txt"@ && contents@ == join_space(
                texts_of(cells@),
            ) + seq!['\n'],
    {
        let points_path = path_join(self.txt_files_dir.as_str(), "points.txt");
        let cells_path = path_join(self.txt_files_dir.as_str(), "cells.txt");
        let mut points_text = String::new();
        array_to_writer_fmt(points, &mut points_text);
        let mut cells_text = String::new();
        array_to_writer_fmt(cells, &mut cells_text);
        let mut ops: Vec<FileOp> = Vec::new();
        ops.push(FileOp::WriteFile { path: points_path, contents: points_text });
        ops.push(FileOp::WriteFile { path: cells_path, contents: cells_text });
        let points_ref = XInclude::new(path_join(self.folder_name.as_str(), "points.txt").as_str(), true);
        let cells_ref = XInclude::new(path_join(self.folder_name.as_str(), "cells.txt").as_str(), true);
        ((DataContent::Include(points_ref), DataContent::Include(cells_ref)), ops)
    }

    /// The name of the side file holding one field of one time step.
    pub open spec fn spec_data_file_name(time: Seq<char>, center: Center, name: Seq<char>) -> Seq<
        char,
    > {
        "data_t_"@ + time + seq!['_'] + spec_center_data_tag(center) + seq!['_'] + name + ".txt"@
    }

    /// Write one field array as its own side file and return the inclusion
    /// reference. Fails if no time step is bracketed.
    pub fn write_data(&mut self, name: &str, center: Center, data: &Values) -> (r: Result<
        (DataContent, Vec<FileOp>),
        XdmfError,
    >)
        ensures
            r matches Err(e) ==> e is ResourceState,
            *final(self) == *old(self),
            old(self).write_time is None ==> (r matches Err(e) && e.spec_message()
                == crate::msg_not_initialized()),
            old(self).write_time matches Some(t) ==> (r matches Ok((content, ops)) && {
                let fname = AsciiWriter::spec_data_file_name(t@, center, name@);
                &&& content matches DataContent::Include(x) && x.file_path@ == old(self).folder_name@ + seq!['/'] + fname && (x.parse matches Some(p) && p@ == "text"@)
                &&& ops@.len() == 1
                &&& ops@[0] matches FileOp::WriteFile { path, contents } && path@ == old(self).txt_files_dir@ + seq!['/'] + fname && contents@ == values_line(*data)
                    + seq!['\n']
            }),
    {
        let time = match &self.write_time {
            Some(t) => t,
            None => {
                return Err(XdmfError::ResourceState("Writing data was not initialized".to_owned()));
            },
        };
        let mut data_file_name: String = "data_t_".to_owned();
        data_file_name.append(time.as_str());
        data_file_name.append("_");
        data_file_name.append(center_to_data_tag(center));
        data_file_name.append("_");
        data_file_name.append(name);
        data_file_name.append(".txt");
        proof {
            reveal_strlit("_");
            assert(data_file_name@ =~= AsciiWriter::spec_data_file_name(
                self.write_time->0@,
                center,
                name@,
            ));
        }
        let mut contents = String::new();
        values_to_writer(data, &mut contents);
        let file_path = path_join(self.txt_files_dir.as_str(), data_file_name.as_str());
        let include_ref = XInclude::new(
            path_join(self.folder_name.as_str(), data_file_name.as_str()).as_str(),
            true,
        );
        let mut ops: Vec<FileOp> = Vec::new();
        ops.push(FileOp::WriteFile { path: file_path, contents });
        Ok((DataContent::Include(include_ref), ops))
    }

    /// Open the bracket for one time step. Fails if one is already open.
    pub fn write_data_initialize(&mut self, time: &str) -> (r: Result<(), XdmfError>)
        ensures
            r matches Err(e) ==> e is ResourceState,
            old(self).write_time is Some ==> (r matches Err(e) && e.spec_message()
                == crate::msg_already_initialized()) && *final(self) == *old(self),
            old(self).write_time is None ==> r is Ok && (final(self).write_time matches Some(t)
                && t@ == time@) && final(self).txt_files_dir == old(self).txt_files_dir && final(self).folder_name == old(self).folder_name,
    {
        if self.write_time.is_some() {
            return Err(XdmfError::ResourceState("Writing data was already initialized".to_owned()));
        }
        self.write_time = Some(time.to_owned());
        Ok(())
    }

    /// Close the bracket for the current time step. Fails if none is open.
    pub fn write_data_finalize(&mut self) -> (r: Result<(), XdmfError>)
        ensures
            r matches Err(e) ==> e is ResourceState,
            old(self).write_time is None ==> (r matches Err(e) && e.spec_message()
                == crate::msg_not_initialized()) && *final(self) == *old(self),
            old(self).write_time is Some ==> r is Ok && final(self).write_time is None && final(self).txt_files_dir == old(self).txt_files_dir && final(self).folder_name == old(self).folder_name,
    {
        if self.write_time.is_none() {
            return Err(XdmfError::ResourceState("Writing data was not initialized".to_owned()));
        }
        self.write_time = None;
        Ok(())
    }
}

} // verus!

