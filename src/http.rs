//! The rules of the store's REST surface: pagination parameters, which
//! path a create takes, and the status and `Location` of each reply.
use vstd::prelude::*;

use crate::domain::ProcessedAgent;
use crate::model::ProcessedAgentId;
use crate::text::{digit_char, push_signed_decimal, signed_decimal};

verus! {

pub const DEFAULT_PAGE: u32 = 1;

pub const DEFAULT_PAGE_SIZE: u8 = 5;

pub const MAX_PAGE_SIZE: u8 = 20;

/// Path under which the store serves records.
pub const RESOURCE_PATH: &'static str = "/api/processed-agent-data/";

/// Why pagination parameters were refused.
#[derive(Debug, Clone, Copy, PartialEq, Eq, Structural)]
pub enum PaginationError {
    /// The page is zero or beyond `u32::MAX`.
    InvalidPage,
    /// The page size is outside 1..=20.
    InvalidSize,
}

/// A page of the record listing: the page number counts from one, the size
/// is between one and twenty.
#[derive(Debug, Clone, Copy, PartialEq, Eq, Structural)]
pub struct Pagination {
    page: u32,
    size: u8,
}

impl View for Pagination {
    type V = (nat, nat);

    closed spec fn view(&self) -> (nat, nat) {
        (self.page as nat, self.size as nat)
    }
}

pub open spec fn valid_page(page: Option<u64>) -> bool {
    page matches Some(p) ==> 1 <= p <= u32::MAX
}

pub open spec fn valid_size(size: Option<u64>) -> bool {
    size matches Some(s) ==> 1 <= s <= MAX_PAGE_SIZE
}

impl Pagination {
    #[verifier::type_invariant]
    spec fn in_bounds(self) -> bool {
        self.page >= 1 && 1 <= self.size <= MAX_PAGE_SIZE
    }

    /// Reads the `page` and `size` query parameters; an absent one takes its
    /// default (page 1, five records). The page is checked first.
    pub fn from_query(page: Option<u64>, size: Option<u64>) -> (r: Result<
        Pagination,
        PaginationError,
    >)
        ensures
            r is Ok <==> valid_page(page) && valid_size(size),
            r == Err::<Pagination, _>(PaginationError::InvalidPage) <==> !valid_page(page),
            r == Err::<Pagination, _>(PaginationError::InvalidSize) <==> valid_page(page)
                && !valid_size(size),
            r matches Ok(p) ==> p@ == (
                match page {
                    Some(v) => v as nat,
                    None => DEFAULT_PAGE as nat,
                },
                match size {
                    Some(v) => v as nat,
                    None => DEFAULT_PAGE_SIZE as nat,
                },
            ),
    {
        let page: u32 = match page {
            None => DEFAULT_PAGE,
            Some(p) => {
                if p >= 1 && p <= u32::MAX as u64 {
                    p as u32
                } else {
                    return Err(PaginationError::InvalidPage);
                }
            },
        };
        let size: u8 = match size {
            None => DEFAULT_PAGE_SIZE,
            Some(s) => {
                if s >= 1 && s <= MAX_PAGE_SIZE as u64 {
                    s as u8
                } else {
                    return Err(PaginationError::InvalidSize);
                }
            },
        };
        Ok(Pagination { page, size })
    }

    pub fn page(&self) -> (r: u32)
        ensures
            r == self@.0,
            r >= 1,
    {
        proof {
            use_type_invariant(self);
        }
        self.page
    }

    pub fn size(&self) -> (r: u8)
        ensures
            r == self@.1,
            1 <= r <= MAX_PAGE_SIZE,
    {
        proof {
            use_type_invariant(self);
        }
        self.size
    }

    /// Records to skip before the page: `(page - 1) * size`.
    pub fn offset(&self) -> (r: u64)
        ensures
            r == (self@.0 - 1) * self@.1,
    {
        let page = self.page();
        let size = self.size();
        assert((page as u64 - 1) * size as u64 <= u32::MAX as u64 * 20) by (nonlinear_arith)
            requires
                1 <= page <= u32::MAX,
                1 <= size <= 20,
        ;
        (page as u64 - 1) * size as u64
    }
}

/// A create request as it came: one record, or a list of records.
#[derive(Debug, Clone, PartialEq, Eq)]
pub enum CreateBody {
    Single(ProcessedAgent),
    List(Vec<ProcessedAgent>),
}

/// How a create is carried out.
#[derive(Debug, Clone, PartialEq, Eq)]
pub enum CreatePlan {
    /// Nothing to store.
    Empty,
    /// Store one record on its own.
    Single(ProcessedAgent),
    /// Store the records together, in one transaction.
    List(Vec<ProcessedAgent>),
}

/// The path a create takes: whether it came as a list, and its records.
#[derive(Debug, Clone, Copy, PartialEq, Eq, Structural)]
pub enum CreateRoute {
    Empty,
    Single,
    List,
}

impl View for CreateBody {
    type V = (bool, Seq<ProcessedAgent>);

    open spec fn view(&self) -> (bool, Seq<ProcessedAgent>) {
        match self {
            CreateBody::Single(r) => (false, seq![*r]),
            CreateBody::List(v) => (true, v@),
        }
    }
}

impl View for CreatePlan {
    type V = (CreateRoute, Seq<ProcessedAgent>);

    open spec fn view(&self) -> (CreateRoute, Seq<ProcessedAgent>) {
        match self {
            CreatePlan::Empty => (CreateRoute::Empty, Seq::empty()),
            CreatePlan::Single(r) => (CreateRoute::Single, seq![*r]),
            CreatePlan::List(v) => (CreateRoute::List, v@),
        }
    }
}

/// A single record, or a list of one, goes the single-record path; an empty
/// list stores nothing; a longer list goes the list path.
pub open spec fn plan_spec(body: (bool, Seq<ProcessedAgent>)) -> (CreateRoute, Seq<ProcessedAgent>) {
    let records = body.1;
    if records.len() == 0 {
        (CreateRoute::Empty, records)
    } else if records.len() == 1 {
        (CreateRoute::Single, records)
    } else {
        (CreateRoute::List, records)
    }
}

pub fn plan_create(body: CreateBody) -> (r: CreatePlan)
    ensures
        r@ == plan_spec(body@),
{
    match body {
        CreateBody::Single(record) => CreatePlan::Single(record),
        CreateBody::List(mut records) => {
            if records.len() == 0 {
                proof {
                    assert(records@ =~= Seq::<ProcessedAgent>::empty());
                }
                CreatePlan::Empty
            } else if records.len() == 1 {
                let record = records.pop().unwrap();
                proof {
                    assert(body@.1 =~= seq![record]);
                }
                CreatePlan::Single(record)
            } else {
                CreatePlan::List(records)
            }
        },
    }
}

/// Status and `Location` header of a reply.
#[derive(Debug, Clone, PartialEq, Eq)]
pub struct HttpReply {
    pub status: u16,
    pub location: Option<String>,
}

pub open spec fn location_path(id: ProcessedAgentId) -> Seq<char> {
    RESOURCE_PATH@ + signed_decimal(id.0 as int)
}

pub open spec fn hex_digit(d: int) -> char {
    if d < 10 {
        digit_char(d)
    } else if d == 10 {
        'a'
    } else if d == 11 {
        'b'
    } else if d == 12 {
        'c'
    } else if d == 13 {
        'd'
    } else if d == 14 {
        'e'
    } else {
        'f'
    }
}

/// How one character appears inside a JSON string: a quote, a backslash and
/// the control characters below U+0020 are escaped (the five with a short
/// form by it, the others as `\u00XX` in lower-case hex); every other
/// character stands for itself.
pub open spec fn json_escaped_char(c: char) -> Seq<char> {
    if c == '"' {
        seq!['\\', '"']
    } else if c == '\\' {
        seq!['\\', '\\']
    } else if c == '\x08' {
        seq!['\\', 'b']
    } else if c == '\t' {
        seq!['\\', 't']
    } else if c == '\n' {
        seq!['\\', 'n']
    } else if c == '\x0c' {
        seq!['\\', 'f']
    } else if c == '\r' {
        seq!['\\', 'r']
    } else if (c as u32) < 0x20 {
        seq!['\\', 'u', '0', '0', hex_digit((c as u32) as int / 16), hex_digit((c as u32) as int % 16)]
    } else {
        seq![c]
    }
}

/// The characters of `s`, each escaped for a JSON string.
pub open spec fn json_escaped(s: Seq<char>) -> Seq<char>
    decreases s.len(),
{
    if s.len() == 0 {
        Seq::empty()
    } else {
        json_escaped(s.drop_last()) + json_escaped_char(s.last())
    }
}

/// JSON strings separated by commas.
pub open spec fn quoted_list(items: Seq<Seq<char>>) -> Seq<char>
    decreases items.len(),
{
    if items.len() == 0 {
        Seq::empty()
    } else if items.len() == 1 {
        "\""@ + json_escaped(items[0]) + "\""@
    } else {
        quoted_list(items.drop_last()) + ","@ + "\""@ + json_escaped(items.last()) + "\""@
    }
}

/// A compact JSON array of strings.
pub open spec fn json_string_array(items: Seq<Seq<char>>) -> Seq<char> {
    "["@ + quoted_list(items) + "]"@
}

/// Relies on `serde_json::to_string` for a `Vec<String>`: it writes a compact
/// JSON array of the strings, each quoted and escaped as `json_escaped_char`
/// says. It fails only when a value's serializer fails or a map has keys that
/// are not strings, neither of which a list of strings has.
#[verifier::external_body]
fn encode_json_strings(items: &Vec<String>) -> (r: String)
    ensures
        r@ == json_string_array(items@.map_values(|s: String| s@)),
{
    serde_json::to_string(items).unwrap()
}

/// Location of one record.
pub fn location(id: ProcessedAgentId) -> (r: String)
    ensures
        r@ == location_path(id),
{
    let mut s = String::from_str(RESOURCE_PATH);
    push_signed_decimal(&mut s, id.0 as i64);
    s
}

/// The reply to a create that stored records under `ids`: 200 without a
/// location when nothing was stored; 201 with the record's location for one
/// record; 201 with a JSON array of locations for several.
pub open spec fn created_reply_spec(ids: Seq<ProcessedAgentId>) -> (u16, Option<Seq<char>>) {
    if ids.len() == 0 {
        (200, None)
    } else if ids.len() == 1 {
        (201, Some(location_path(ids[0])))
    } else {
        (201, Some(json_string_array(ids.map_values(|id: ProcessedAgentId| location_path(id)))))
    }
}

pub fn created_reply(ids: &Vec<ProcessedAgentId>) -> (r: HttpReply)
    ensures
        (r.status, match r.location {
            Some(l) => Some(l@),
            None => None,
        }) == created_reply_spec(ids@),
{
    if ids.len() == 0 {
        HttpReply { status: 200, location: None }
    } else if ids.len() == 1 {
        HttpReply { status: 201, location: Some(location(ids[0])) }
    } else {
        let mut paths: Vec<String> = Vec::new();
        let mut i: usize = 0;
        while i < ids.len()
            invariant
                0 <= i <= ids@.len(),
                paths@.len() == i,
                forall|j: int| 0 <= j < i ==> #[trigger] paths@[j]@ == location_path(ids@[j]),
            decreases ids@.len() - i,
        {
            paths.push(location(ids[i]));
            i = i + 1;
        }
        let header = encode_json_strings(&paths);
        proof {
            assert(paths@.map_values(|s: String| s@) =~= ids@.map_values(
                |id: ProcessedAgentId| location_path(id),
            ));
        }
        HttpReply { status: 201, location: Some(header) }
    }
}

/// Status of a read: 200 with the record, or 404.
pub fn read_status(found: bool) -> (r: u16)
    ensures
        r == (if found {
            200u16
        } else {
            404u16
        }),
{
    if found {
        200
    } else {
        404
    }
}

/// Status of an update: 204 when a record was replaced, 404 when none had
/// the identifier.
pub fn update_status(updated: bool) -> (r: u16)
    ensures
        r == (if updated {
            204u16
        } else {
            404u16
        }),
{
    if updated {
        204
    } else {
        404
    }
}

pub open spec fn delete_status_spec(deleted: bool) -> u16 {
    204
}

/// Status of a delete: 204, whether or not the record existed.
pub fn delete_status(deleted: bool) -> (r: u16)
    ensures
        r == delete_status_spec(deleted),
{
    204
}

/// Deleting is idempotent: the reply is 204 whether or not a record was
/// there to delete, so deleting the same identifier again gives the same
/// reply.
pub proof fn lemma_delete_idempotent(first: bool, again: bool)
    ensures
        delete_status_spec(first) == delete_status_spec(again),
        delete_status_spec(again) == 204,
{
}

/// A list of one record is created exactly as that record sent alone: both
/// take the single-record path with the same record, and the reply is 201
/// with the record's own location, not a list of locations.
pub proof fn lemma_list_of_one_as_single(record: ProcessedAgent, id: ProcessedAgentId)
    ensures
        plan_spec((true, seq![record])) == plan_spec((false, seq![record])),
        plan_spec((false, seq![record])).0 == CreateRoute::Single,
        created_reply_spec(seq![id]) == (201u16, Some(location_path(id))),
{
}

} // verus!
