//! The host-by-port table: twelve fixed columns, one record per row, each
//! record encoded by the `csv` crate with a CRLF terminator.
use vstd::prelude::*;
use vstd::string::StringExecFns;
use crate::batch::{decoded_scans, scans_rows, SourceError};
use crate::flatten::{flatten, rows_view, scan_rows, Row};
use crate::model::{Address, Port, Scan};

verus! {

/// The `csv` crate's `csv::Error`, carried through unopened.
#[verifier::external_type_specification]
#[verifier::external_body]
pub struct ExCsvError(csv::Error);

/// The bytes that the `csv` crate writes for one record with the given
/// fields, terminator included.
pub uninterp spec fn csv_record(fields: Seq<Seq<char>>) -> Seq<u8>;

/// Relies on `csv::Writer::write_record` on a writer built with a CRLF
/// terminator: the bytes written for one record depend on its fields alone.
/// A fresh writer over a `Vec<u8>` has no earlier record whose length could
/// differ, and writing to or flushing a `Vec<u8>` never fails, so the call
/// succeeds.
#[verifier::external_body]
fn write_record(fields: &Vec<String>) -> (r: Result<Vec<u8>, csv::Error>)
    ensures
        r is Ok,
        r matches Ok(b) ==> b@ == csv_record(strings_view(fields@)),
{
    let mut w = csv::WriterBuilder::new().has_headers(false).terminator(
        csv::Terminator::CRLF,
    ).from_writer(Vec::new());
    w.write_record(fields)?;
    w.into_inner().map_err(|e| csv::Error::from(e.into_error()))
}

/// Why the table could not be encoded.
#[derive(Debug)]
pub enum ExportError {
    /// The `csv` writer refused a record.
    Csv(csv::Error),
}

/// The views of a sequence of strings.
pub open spec fn strings_view(v: Seq<String>) -> Seq<Seq<char>> {
    v.map_values(|s: String| s@)
}

/// The text of an optional field; an absent field is an empty cell.
pub open spec fn text(o: Option<String>) -> Seq<char> {
    match o {
        Some(s) => s@,
        None => Seq::empty(),
    }
}

/// The column names, in order.
pub open spec fn header_cells() -> Seq<Seq<char>> {
    seq![
        "addr"@,
        "addrtype"@,
        "protocol"@,
        "portid"@,
        "state"@,
        "reason"@,
        "reason_ttl"@,
        "name"@,
        "product"@,
        "tunnel"@,
        "method"@,
        "conf"@,
    ]
}

/// The twelve cells of the row of port `p` of a host with address `a`.
pub open spec fn row_cells(a: Address, p: Port) -> Seq<Seq<char>> {
    let (state, reason, reason_ttl) = match p.state {
        Some(st) => (st.state@, st.reason@, st.reason_ttl@),
        None => (Seq::empty(), Seq::empty(), Seq::empty()),
    };
    let (name, product, tunnel, method, conf) = match p.service {
        Some(sv) => (text(sv.name), text(sv.product), text(sv.tunnel), text(sv.method), text(
            sv.conf,
        )),
        None => (Seq::empty(), Seq::empty(), Seq::empty(), Seq::empty(), Seq::empty()),
    };
    seq![
        a.addr@,
        a.addrtype@,
        text(p.protocol),
        text(p.portid),
        state,
        reason,
        reason_ttl,
        name,
        product,
        tunnel,
        method,
        conf,
    ]
}

/// The encoded records of a sequence of rows, one after another.
pub open spec fn rows_csv(rows: Seq<(Address, Port)>) -> Seq<u8>
    decreases rows.len(),
{
    if rows.len() == 0 {
        Seq::empty()
    } else {
        rows_csv(rows.drop_last()) + csv_record(row_cells(rows.last().0, rows.last().1))
    }
}

fn text_of(o: &Option<String>) -> (r: String)
    ensures
        r@ == text(*o),
{
    match o {
        Some(s) => s.clone(),
        None => String::new(),
    }
}

/// The column names, in order.
pub fn header() -> (r: Vec<String>)
    ensures
        strings_view(r@) == header_cells(),
{
    let r = vec![
        String::from_str("addr"),
        String::from_str("addrtype"),
        String::from_str("protocol"),
        String::from_str("portid"),
        String::from_str("state"),
        String::from_str("reason"),
        String::from_str("reason_ttl"),
        String::from_str("name"),
        String::from_str("product"),
        String::from_str("tunnel"),
        String::from_str("method"),
        String::from_str("conf"),
    ];
    assert(strings_view(r@) =~= header_cells());
    r
}

/// The cells of one row; a field absent from the port is an empty cell.
pub fn row_record(row: &Row) -> (r: Vec<String>)
    ensures
        strings_view(r@) == row_cells(row@.0, row@.1),
{
    let a = row.address;
    let p = row.port;
    let (state, reason, reason_ttl) = match &p.state {
        Some(st) => (st.state.clone(), st.reason.clone(), st.reason_ttl.clone()),
        None => (String::new(), String::new(), String::new()),
    };
    let (name, product, tunnel, method, conf) = match &p.service {
        Some(sv) => (
            text_of(&sv.name),
            text_of(&sv.product),
            text_of(&sv.tunnel),
            text_of(&sv.method),
            text_of(&sv.conf),
        ),
        None => (String::new(), String::new(), String::new(), String::new(), String::new()),
    };
    let r = vec![
        a.addr.clone(),
        a.addrtype.clone(),
        text_of(&p.protocol),
        text_of(&p.portid),
        state,
        reason,
        reason_ttl,
        name,
        product,
        tunnel,
        method,
        conf,
    ];
    assert(strings_view(r@) =~= row_cells(row@.0, row@.1));
    r
}

/// The encoded header record.
pub fn encode_header() -> (r: Result<Vec<u8>, ExportError>)
    ensures
        r is Ok,
        r matches Ok(b) ==> b@ == csv_record(header_cells()),
{
    match write_record(&header()) {
        Ok(b) => Ok(b),
        Err(e) => Err(ExportError::Csv(e)),
    }
}

/// The encoded records of the given rows, in order.
pub fn encode_rows(rows: &Vec<Row>) -> (r: Result<Vec<u8>, ExportError>)
    ensures
        r is Ok,
        r matches Ok(b) ==> b@ == rows_csv(rows_view(rows@)),
{
    let mut out: Vec<u8> = Vec::new();
    let mut k: usize = 0;
    while k < rows.len()
        invariant
            k <= rows@.len(),
            out@ == rows_csv(rows_view(rows@.take(k as int))),
        decreases rows@.len() - k,
    {
        let mut rec = match write_record(&row_record(&rows[k])) {
            Ok(b) => b,
            Err(e) => {
                return Err(ExportError::Csv(e));
            },
        };
        out.append(&mut rec);
        assert(rows_view(rows@.take(k + 1)).drop_last() =~= rows_view(rows@.take(k as int)));
        k = k + 1;
    }
    assert(rows@.take(rows@.len() as int) =~= rows@);
    Ok(out)
}

/// The encoded records of the rows of one scan, without a header.
pub fn scan_to_csv(scan: &Scan) -> (r: Result<Vec<u8>, ExportError>)
    ensures
        r is Ok,
        r matches Ok(b) ==> b@ == rows_csv(scan_rows(*scan)),
{
    encode_rows(&flatten(scan))
}

/// The whole table of a batch: the header, then the records of every source
/// that decoded, in source order. The header is there even when no row
/// follows.
pub fn batch_to_csv(sources: &Vec<Result<Scan, SourceError>>) -> (r: Result<Vec<u8>, ExportError>)
    ensures
        r is Ok,
        r matches Ok(b) ==> b@ == csv_record(header_cells()) + rows_csv(
            scans_rows(decoded_scans(sources@)),
        ),
{
    let mut out = encode_header()?;
    let mut body = encode_rows(&crate::batch::batch_rows(sources))?;
    out.append(&mut body);
    Ok(out)
}

} // verus!
