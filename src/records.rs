use vstd::prelude::*;

verus! {

/// The DNS record types this endpoint writes.
#[derive(Clone, Copy, Debug, PartialEq, Eq, Structural)]
pub enum RecordType {
    A,
    Aaaa,
    Txt,
}

/// The provider's name for a record type.
pub open spec fn provider_name(t: RecordType) -> Seq<char> {
    match t {
        RecordType::A => seq!['A'],
        RecordType::Aaaa => seq!['A', 'A', 'A', 'A'],
        RecordType::Txt => seq!['T', 'X', 'T'],
    }
}

impl RecordType {
    /// The provider's name for this record type.
    pub fn as_str(&self) -> (r: &'static str)
        ensures
            r@ == provider_name(*self),
    {
        match self {
            RecordType::A => {
                proof {
                    reveal_strlit("A");
                }
                "A"
            },
            RecordType::Aaaa => {
                proof {
                    reveal_strlit("AAAA");
                }
                "AAAA"
            },
            RecordType::Txt => {
                proof {
                    reveal_strlit("TXT");
                }
                "TXT"
            },
        }
    }
}

/// A record as the contracts see it.
pub struct RecordView {
    pub record_type: RecordType,
    pub content: Seq<char>,
}

/// One DNS record to reconcile: its type and its value.
#[derive(Debug)]
pub struct Record {
    pub record_type: RecordType,
    pub content: String,
}

impl View for Record {
    type V = RecordView;

    open spec fn view(&self) -> RecordView {
        RecordView { record_type: self.record_type, content: self.content@ }
    }
}

impl Record {
    /// A record of the given type and value.
    pub fn new(record_type: RecordType, content: String) -> (r: Record)
        ensures
            r@ == (RecordView { record_type, content: content@ }),
    {
        Record { record_type, content }
    }

    /// A copy of this record.
    pub fn duplicate(&self) -> (r: Record)
        ensures
            r@ == self@,
    {
        Record { record_type: self.record_type, content: self.content.clone() }
    }
}

/// The views of a list of records.
pub open spec fn views(rs: Seq<Record>) -> Seq<RecordView> {
    rs.map_values(|r: Record| r@)
}

/// Copies the records `rs[0..end]`.
pub fn copy_prefix(rs: &Vec<Record>, end: usize) -> (r: Vec<Record>)
    requires
        end <= rs@.len(),
    ensures
        views(r@) == views(rs@).subrange(0, end as int),
{
    let mut out: Vec<Record> = Vec::new();
    let mut i: usize = 0;
    while i < end
        invariant
            i <= end <= rs@.len(),
            views(out@) =~= views(rs@).subrange(0, i as int),
        decreases end - i,
    {
        let ghost prev = out@;
        out.push(rs[i].duplicate());
        proof {
            assert(views(out@) =~= views(prev).push(rs@[i as int]@));
            assert(views(rs@).subrange(0, i + 1) =~= views(rs@).subrange(0, i as int).push(
                rs@[i as int]@,
            ));
        }
        i = i + 1;
    }
    out
}

/// The caller's address as seen after reverse-proxy-aware extraction, in its
/// textual form.
#[derive(Debug)]
pub enum ClientAddr {
    V4(String),
    V6(String),
}

/// The record synthesized from the caller's address.
pub open spec fn client_record(c: ClientAddr) -> RecordView {
    match c {
        ClientAddr::V4(s) => RecordView { record_type: RecordType::A, content: s@ },
        ClientAddr::V6(s) => RecordView { record_type: RecordType::Aaaa, content: s@ },
    }
}

/// One query parameter of a request, as a record when it is present.
pub open spec fn given(t: RecordType, v: Option<String>) -> Seq<RecordView> {
    match v {
        Some(c) => seq![RecordView { record_type: t, content: c@ }],
        None => Seq::empty(),
    }
}

/// The records one request asks for: A, AAAA and TXT as supplied, then a
/// record of the caller's address when neither A nor AAAA was supplied.
pub open spec fn record_set(
    a: Option<String>,
    aaaa: Option<String>,
    txt: Option<String>,
    client: ClientAddr,
) -> Seq<RecordView> {
    given(RecordType::A, a) + given(RecordType::Aaaa, aaaa) + given(RecordType::Txt, txt) + if a
        is None && aaaa is None {
        seq![client_record(client)]
    } else {
        Seq::empty()
    }
}

fn push_given(out: &mut Vec<Record>, t: RecordType, v: &Option<String>)
    ensures
        views(final(out)@) == views(old(out)@) + given(t, *v),
{
    if let Some(c) = v {
        out.push(Record::new(t, c.clone()));
    }
    proof {
        assert(views(final(out)@) =~= views(old(out)@) + given(t, *v));
    }
}

/// Builds the ordered list of records to reconcile for one request.
pub fn build_records(
    a: &Option<String>,
    aaaa: &Option<String>,
    txt: &Option<String>,
    client: &ClientAddr,
) -> (r: Vec<Record>)
    ensures
        views(r@) == record_set(*a, *aaaa, *txt, *client),
{
    let mut out: Vec<Record> = Vec::new();
    push_given(&mut out, RecordType::A, a);
    push_given(&mut out, RecordType::Aaaa, aaaa);
    push_given(&mut out, RecordType::Txt, txt);
    if a.is_none() && aaaa.is_none() {
        let rec = match client {
            ClientAddr::V4(s) => Record::new(RecordType::A, s.clone()),
            ClientAddr::V6(s) => Record::new(RecordType::Aaaa, s.clone()),
        };
        out.push(rec);
    }
    proof {
        assert(views(out@) =~= record_set(*a, *aaaa, *txt, *client));
    }
    out
}

/// With neither A nor AAAA supplied, exactly one record comes from the
/// caller's address, an A record for IPv4 and an AAAA record for IPv6, after
/// the TXT record if one was supplied.
pub proof fn lemma_address_fallback(txt: Option<String>, client: ClientAddr)
    ensures
        record_set(None, None, txt, client) == given(RecordType::Txt, txt) + seq![
            client_record(client),
        ],
        client is V4 ==> client_record(client).record_type == RecordType::A,
        client is V6 ==> client_record(client).record_type == RecordType::Aaaa,
        client_record(client).content == match client {
            ClientAddr::V4(s) => s@,
            ClientAddr::V6(s) => s@,
        },
{
    assert(record_set(None, None, txt, client) =~= given(RecordType::Txt, txt) + seq![
        client_record(client),
    ]);
}

/// With A, AAAA and TXT all supplied, exactly those three records are
/// produced, and none from the caller's address.
pub proof fn lemma_all_supplied(a: String, aaaa: String, txt: String, client: ClientAddr)
    ensures
        record_set(Some(a), Some(aaaa), Some(txt), client) == seq![
            RecordView { record_type: RecordType::A, content: a@ },
            RecordView { record_type: RecordType::Aaaa, content: aaaa@ },
            RecordView { record_type: RecordType::Txt, content: txt@ },
        ],
{
    assert(record_set(Some(a), Some(aaaa), Some(txt), client) =~= seq![
        RecordView { record_type: RecordType::A, content: a@ },
        RecordView { record_type: RecordType::Aaaa, content: aaaa@ },
        RecordView { record_type: RecordType::Txt, content: txt@ },
    ]);
}

} // verus!
