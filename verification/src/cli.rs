//! The command-line client's arguments and how it lays out answers as text
//! tables.

use vstd::prelude::*;
use vstd::string::*;
use vstd::utf8::encode_utf8;

use crate::text::{decimal, decimal_string, pad_right, padded, str_equal};
use crate::transport::ActionRequest;

verus! {

/// The server the client talks to unless told otherwise.
pub const DEFAULT_SERVER: &'static str = "http://[::1]:50051";

/// How the client prints an answer.
#[derive(Debug, Clone, Copy, PartialEq, Eq)]
pub enum OutputFormat {
    Json,
    Table,
}

/// What the client is asked to do.
#[derive(Debug, Clone, PartialEq, Eq)]
pub enum Commands {
    /// Run the action named `action` on the text `payload`.
    Execute { action: String, payload: String },
    /// Ask for the platform's info.
    Info,
    /// Record the application that an agent deployed, as the JSON file
    /// `file` describes it.
    DeployAgent { file: String },
    /// Deploy, and where asked start, the application that the JSON file
    /// `file` describes.
    Deploy { file: String },
    /// Ask the server to shut down.
    Terminate,
}

/// The client's arguments.
#[derive(Debug, Clone, PartialEq, Eq)]
pub struct Cli {
    pub server: String,
    pub output: OutputFormat,
    pub command: Commands,
}

impl Cli {
    /// The arguments with `server` and `output` where they are given, and
    /// the defaults (the local server, JSON) where they are not.
    pub fn new(server: Option<String>, output: Option<OutputFormat>, command: Commands) -> (r: Cli)
        ensures
            r.server@ == match server {
                Some(s) => s@,
                None => DEFAULT_SERVER@,
            },
            r.output == match output {
                Some(o) => o,
                None => OutputFormat::Json,
            },
            r.command == command,
    {
        let server = match server {
            Some(s) => s,
            None => String::from_str(DEFAULT_SERVER),
        };
        let output = match output {
            Some(o) => o,
            None => OutputFormat::Json,
        };
        Cli { server, output, command }
    }
}

/// The request that `command` sends to the generic action endpoint, if it
/// is one for it: the action's name and the payload's UTF-8 bytes.
pub fn action_request(command: &Commands) -> (r: Option<ActionRequest>)
    ensures
        match command {
            Commands::Execute { action, payload } => r matches Some(req) && req.action@
                == action@ && req.payload@ == encode_utf8(payload@),
            _ => r is None,
        },
{
    match command {
        Commands::Execute { action, payload } => Some(
            ActionRequest { action: action.clone(), payload: payload.as_str().as_bytes_vec() },
        ),
        _ => None,
    }
}

/// The line the client reports an answer's error with, where the answer
/// carries one.
pub fn reply_error_line(error: &str) -> (r: Option<String>)
    ensures
        error@.len() == 0 ==> r is None,
        error@.len() > 0 ==> (r matches Some(line) && line@ == "Error: "@ + error@),
{
    if error.unicode_len() == 0 {
        None
    } else {
        Some(String::from_str("Error: ").concat(error))
    }
}

/// The number of characters of the longest of `cells`.
pub open spec fn max_width(cells: Seq<Seq<char>>) -> nat
    decreases cells.len(),
{
    if cells.len() == 0 {
        0
    } else {
        let m = max_width(cells.drop_last());
        if cells.last().len() > m {
            cells.last().len()
        } else {
            m
        }
    }
}

/// The width of a column: that of its widest cell or of its header.
pub open spec fn column_width(header: Seq<char>, cells: Seq<Seq<char>>) -> nat {
    let m = max_width(cells);
    if header.len() > m {
        header.len()
    } else {
        m
    }
}

/// The left cells of `rows`.
pub open spec fn lefts(rows: Seq<(Seq<char>, Seq<char>)>) -> Seq<Seq<char>> {
    rows.map_values(|r: (Seq<char>, Seq<char>)| r.0)
}

/// The right cells of `rows`.
pub open spec fn rights(rows: Seq<(Seq<char>, Seq<char>)>) -> Seq<Seq<char>> {
    rows.map_values(|r: (Seq<char>, Seq<char>)| r.1)
}

/// A line of a two-column table: both cells padded to their column's
/// width, two spaces apart.
pub open spec fn table_line(left: Seq<char>, right: Seq<char>, lw: nat, rw: nat) -> Seq<char> {
    pad_right(left, lw) + "  "@ + pad_right(right, rw)
}

/// The lines of a two-column table: the headers, then each row.
pub open spec fn two_column_table(
    left_header: Seq<char>,
    right_header: Seq<char>,
    rows: Seq<(Seq<char>, Seq<char>)>,
) -> Seq<Seq<char>> {
    let lw = column_width(left_header, lefts(rows));
    let rw = column_width(right_header, rights(rows));
    seq![table_line(left_header, right_header, lw, rw)] + rows.map_values(
        |r: (Seq<char>, Seq<char>)| table_line(r.0, r.1, lw, rw),
    )
}

/// The content of a list of rows.
pub open spec fn rows_view(rows: Seq<(String, String)>) -> Seq<(Seq<char>, Seq<char>)> {
    rows.map_values(|r: (String, String)| (r.0@, r.1@))
}

/// The content of a list of lines.
pub open spec fn lines_view(lines: Seq<String>) -> Seq<Seq<char>> {
    lines.map_values(|l: String| l@)
}

/// A value, or `-` where it is missing.
pub open spec fn or_dash(o: Option<Seq<char>>) -> Seq<char> {
    match o {
        Some(v) => v,
        None => "-"@,
    }
}

/// The content of an optional text.
pub open spec fn opt_text(o: Option<String>) -> Option<Seq<char>> {
    match o {
        Some(s) => Some(s@),
        None => None,
    }
}

/// The lines of the info table: a table of the application and task, an
/// empty line, and a table of the endpoints; a missing value shows as `-`.
pub open spec fn info_table(
    application: Option<Seq<char>>,
    task_id: Option<Seq<char>>,
    endpoints: Seq<(Option<Seq<char>>, Option<Seq<char>>)>,
) -> Seq<Seq<char>> {
    two_column_table(
        "Field"@,
        "Value"@,
        seq![("application"@, or_dash(application)), ("task_id"@, or_dash(task_id))],
    ) + seq![Seq::<char>::empty()] + two_column_table(
        "Endpoint"@,
        "Value"@,
        endpoints.map_values(
            |e: (Option<Seq<char>>, Option<Seq<char>>)| (or_dash(e.0), or_dash(e.1)),
        ),
    )
}

/// The rows that number `values` from zero.
pub open spec fn indexed(values: Seq<Seq<char>>) -> Seq<(Seq<char>, Seq<char>)> {
    Seq::new(values.len(), |i: int| (decimal(i as nat), values[i]))
}

fn line_of(left: &str, right: &str, lw: usize, rw: usize) -> (r: String)
    ensures
        r@ == table_line(left@, right@, lw as nat, rw as nat),
{
    padded(left, lw).concat("  ").concat(padded(right, rw).as_str())
}

/// The lines of a two-column table with headers `left_header` and
/// `right_header` and the rows `rows`; each column is as wide as its widest
/// cell or header.
pub fn format_two_columns(left_header: &str, right_header: &str, rows: &Vec<(String, String)>) -> (r:
    Vec<String>)
    ensures
        lines_view(r@) == two_column_table(left_header@, right_header@, rows_view(rows@)),
{
    let ghost rv = rows_view(rows@);
    let n = rows.len();
    let mut lm: usize = 0;
    let mut rm: usize = 0;
    let mut i: usize = 0;
    while i < n
        invariant
            n == rows@.len(),
            rv == rows_view(rows@),
            i <= n,
            lm as nat == max_width(lefts(rv).subrange(0, i as int)),
            rm as nat == max_width(rights(rv).subrange(0, i as int)),
        decreases n - i,
    {
        proof {
            assert(lefts(rv).subrange(0, i + 1).drop_last() =~= lefts(rv).subrange(0, i as int));
            assert(rights(rv).subrange(0, i + 1).drop_last() =~= rights(rv).subrange(
                0,
                i as int,
            ));
        }
        let lc = rows[i].0.as_str().unicode_len();
        let rc = rows[i].1.as_str().unicode_len();
        if lc > lm {
            lm = lc;
        }
        if rc > rm {
            rm = rc;
        }
        i = i + 1;
    }
    proof {
        assert(lefts(rv).subrange(0, n as int) =~= lefts(rv));
        assert(rights(rv).subrange(0, n as int) =~= rights(rv));
    }
    let lh = left_header.unicode_len();
    let rh = right_header.unicode_len();
    let lw = if lh > lm {
        lh
    } else {
        lm
    };
    let rw = if rh > rm {
        rh
    } else {
        rm
    };
    let ghost body = rv.map_values(
        |r: (Seq<char>, Seq<char>)| table_line(r.0, r.1, lw as nat, rw as nat),
    );
    let mut lines: Vec<String> = Vec::new();
    lines.push(line_of(left_header, right_header, lw, rw));
    let mut k: usize = 0;
    while k < n
        invariant
            n == rows@.len(),
            rv == rows_view(rows@),
            body == rv.map_values(
                |r: (Seq<char>, Seq<char>)| table_line(r.0, r.1, lw as nat, rw as nat),
            ),
            k <= n,
            lines_view(lines@) =~= seq![
                table_line(left_header@, right_header@, lw as nat, rw as nat),
            ] + body.subrange(0, k as int),
        decreases n - k,
    {
        let line = line_of(rows[k].0.as_str(), rows[k].1.as_str(), lw, rw);
        proof {
            assert(lines_view(lines@.push(line)) =~= lines_view(lines@).push(line@));
            assert(body.subrange(0, k + 1) =~= body.subrange(0, k as int).push(body[k as int]));
        }
        lines.push(line);
        k = k + 1;
    }
    proof {
        assert(body.subrange(0, n as int) =~= body);
    }
    lines
}

/// The lines of the info table for the rendered `application`, `task_id`
/// and endpoint names and values; a missing one shows as `-`.
pub fn info_table_lines(
    application: Option<String>,
    task_id: Option<String>,
    endpoints: &Vec<(Option<String>, Option<String>)>,
) -> (r: Vec<String>)
    ensures
        lines_view(r@) == info_table(
            opt_text(application),
            opt_text(task_id),
            endpoints@.map_values(
                |e: (Option<String>, Option<String>)| (opt_text(e.0), opt_text(e.1)),
            ),
        ),
{
    let mut fields: Vec<(String, String)> = Vec::new();
    fields.push((String::from_str("application"), text_or_dash(application)));
    fields.push((String::from_str("task_id"), text_or_dash(task_id)));
    proof {
        assert(rows_view(fields@) =~= seq![
            ("application"@, or_dash(opt_text(application))),
            ("task_id"@, or_dash(opt_text(task_id))),
        ]);
    }
    let ghost ev = endpoints@.map_values(
        |e: (Option<String>, Option<String>)| (opt_text(e.0), opt_text(e.1)),
    );
    let ghost er = ev.map_values(
        |e: (Option<Seq<char>>, Option<Seq<char>>)| (or_dash(e.0), or_dash(e.1)),
    );
    let mut rows: Vec<(String, String)> = Vec::new();
    let n = endpoints.len();
    let mut i: usize = 0;
    while i < n
        invariant
            n == endpoints@.len(),
            ev == endpoints@.map_values(
                |e: (Option<String>, Option<String>)| (opt_text(e.0), opt_text(e.1)),
            ),
            er == ev.map_values(
                |e: (Option<Seq<char>>, Option<Seq<char>>)| (or_dash(e.0), or_dash(e.1)),
            ),
            i <= n,
            rows_view(rows@) =~= er.subrange(0, i as int),
        decreases n - i,
    {
        let row = (text_or_dash(endpoints[i].0.clone()), text_or_dash(endpoints[i].1.clone()));
        proof {
            assert(rows_view(rows@.push(row)) =~= rows_view(rows@).push((row.0@, row.1@)));
            assert(er.subrange(0, i + 1) =~= er.subrange(0, i as int).push(er[i as int]));
        }
        rows.push(row);
        i = i + 1;
    }
    proof {
        assert(er.subrange(0, n as int) =~= er);
    }
    let mut lines = format_two_columns("Field", "Value", &fields);
    let ghost first = lines_view(lines@);
    lines.push(String::new());
    let mut rest = format_two_columns("Endpoint", "Value", &rows);
    let ghost second = lines_view(rest@);
    proof {
        assert(lines_view(lines@) =~= first + seq![Seq::<char>::empty()]);
    }
    lines.append(&mut rest);
    proof {
        assert(lines_view(lines@) =~= first + seq![Seq::<char>::empty()] + second);
    }
    lines
}

fn text_or_dash(o: Option<String>) -> (r: String)
    ensures
        r@ == or_dash(opt_text(o)),
{
    match o {
        Some(v) => v,
        None => String::from_str("-"),
    }
}

/// The rows that number `values` from zero, in decimal.
pub fn indexed_rows(values: &Vec<String>) -> (r: Vec<(String, String)>)
    ensures
        rows_view(r@) == indexed(lines_view(values@)),
{
    let ghost target = indexed(lines_view(values@));
    let mut rows: Vec<(String, String)> = Vec::new();
    let n = values.len();
    let mut i: usize = 0;
    while i < n
        invariant
            n == values@.len(),
            target == indexed(lines_view(values@)),
            i <= n,
            rows_view(rows@) =~= target.subrange(0, i as int),
        decreases n - i,
    {
        let row = (decimal_string(i as u128), values[i].clone());
        proof {
            assert(rows_view(rows@.push(row)) =~= rows_view(rows@).push((row.0@, row.1@)));
            assert(target.subrange(0, i + 1) =~= target.subrange(0, i as int).push(
                target[i as int],
            ));
        }
        rows.push(row);
        i = i + 1;
    }
    proof {
        assert(target.subrange(0, n as int) =~= target);
    }
    rows
}

/// Whether `keys` name all three fields of an info answer.
pub open spec fn info_keys(keys: Seq<Seq<char>>) -> bool {
    keys.contains("application"@) && keys.contains("endpoints"@) && keys.contains("task_id"@)
}

fn has_key(keys: &Vec<String>, key: &str) -> (r: bool)
    ensures
        r == lines_view(keys@).contains(key@),
{
    let n = keys.len();
    let mut i: usize = 0;
    while i < n
        invariant
            n == keys@.len(),
            i <= n,
            forall|j: int| 0 <= j < i ==> keys@[j]@ != key@,
        decreases n - i,
    {
        if str_equal(keys[i].as_str(), key) {
            assert(lines_view(keys@)[i as int] == key@);
            return true;
        }
        i = i + 1;
    }
    assert forall|j: int| 0 <= j < n implies lines_view(keys@)[j] != key@ by {}
    false
}

/// Whether an object with the keys `keys` is shown as the info table.
pub fn is_info_object(keys: &Vec<String>) -> (r: bool)
    ensures
        r == info_keys(lines_view(keys@)),
{
    has_key(keys, "application") && has_key(keys, "endpoints") && has_key(keys, "task_id")
}

/// An object is shown as the info table exactly when its keys include
/// `application`, `endpoints` and `task_id`: other keys, however many, do
/// not change that, and without one of the three it is not.
pub proof fn law_info_object_keys(keys: Seq<Seq<char>>, more: Seq<Seq<char>>)
    ensures
        keys.contains("application"@) && keys.contains("endpoints"@) && keys.contains("task_id"@)
            ==> info_keys(keys),
        !keys.contains("application"@) ==> !info_keys(keys),
        !keys.contains("endpoints"@) ==> !info_keys(keys),
        !keys.contains("task_id"@) ==> !info_keys(keys),
        info_keys(keys) ==> info_keys(keys + more) && info_keys(more + keys),
{
    if info_keys(keys) {
        let i = choose|i: int| 0 <= i < keys.len() && keys[i] == "application"@;
        let j = choose|j: int| 0 <= j < keys.len() && keys[j] == "endpoints"@;
        let k = choose|k: int| 0 <= k < keys.len() && keys[k] == "task_id"@;
        assert((keys + more)[i] == "application"@);
        assert((keys + more)[j] == "endpoints"@);
        assert((keys + more)[k] == "task_id"@);
        assert((more + keys)[more.len() + i] == "application"@);
        assert((more + keys)[more.len() + j] == "endpoints"@);
        assert((more + keys)[more.len() + k] == "task_id"@);
    }
}

/// What the client shows as a table, read from an answer.
pub enum TableShape {
    /// An info answer: its application, task and endpoints, each where
    /// present.
    Info {
        application: Option<String>,
        task_id: Option<String>,
        endpoints: Vec<(Option<String>, Option<String>)>,
    },
    /// Any other object: its keys and rendered values.
    Object(Vec<(String, String)>),
    /// An array: its rendered elements.
    Array(Vec<String>),
    /// A single rendered value.
    Scalar(String),
}

/// The lines of the table for `shape`: the info table, a `Key`/`Value`
/// table of an object's entries, an `Index`/`Value` table of an array's
/// elements, or a `Key`/`Value` table with the single row `result`.
pub fn table_lines(shape: TableShape) -> (r: Vec<String>)
    ensures
        lines_view(r@) == match shape {
            TableShape::Info { application, task_id, endpoints } => info_table(
                opt_text(application),
                opt_text(task_id),
                endpoints@.map_values(
                    |e: (Option<String>, Option<String>)| (opt_text(e.0), opt_text(e.1)),
                ),
            ),
            TableShape::Object(rows) => two_column_table("Key"@, "Value"@, rows_view(rows@)),
            TableShape::Array(values) => two_column_table(
                "Index"@,
                "Value"@,
                indexed(lines_view(values@)),
            ),
            TableShape::Scalar(v) => two_column_table("Key"@, "Value"@, seq![("result"@, v@)]),
        },
{
    match shape {
        TableShape::Info { application, task_id, endpoints } => info_table_lines(
            application,
            task_id,
            &endpoints,
        ),
        TableShape::Object(rows) => format_two_columns("Key", "Value", &rows),
        TableShape::Array(values) => format_two_columns("Index", "Value", &indexed_rows(&values)),
        TableShape::Scalar(v) => {
            let ghost vv = v@;
            let mut rows: Vec<(String, String)> = Vec::new();
            rows.push((String::from_str("result"), v));
            assert(rows_view(rows@) =~= seq![("result"@, vv)]);
            format_two_columns("Key", "Value", &rows)
        },
    }
}

} // verus!
