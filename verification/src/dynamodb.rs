//! The requests this service makes of its DynamoDB table, the identifiers it
//! stores items under, and how it chooses the database endpoint.

use vstd::prelude::*;

use crate::attribute::{is_string_attr, AttributeValue, Item};

verus! {

/// The name of the table's partition key attribute.
pub const PARTITION_KEY_NAME: &'static str = "partition";

/// A request to read the item stored under a key.
pub struct GetItemRequest {
    pub table_name: String,
    pub key: Item,
}

/// A request to store an item.
pub struct PutItemRequest {
    pub table_name: String,
    pub item: Item,
}

/// `request` reads, from the table `table_name`, the item whose partition key
/// is the string `partition`.
pub open spec fn is_get_item_request(request: GetItemRequest, table_name: Seq<char>, partition: Seq<char>) -> bool {
    &&& request.table_name@ == table_name
    &&& request.key@.dom() == set![PARTITION_KEY_NAME@]
    &&& is_string_attr(request.key@[PARTITION_KEY_NAME@], partition)
}

/// The request that reads, from `table_name`, the item whose partition key is
/// the string `partition`.
pub fn get_item_request(table_name: &str, partition: &str) -> (request: GetItemRequest)
    ensures
        is_get_item_request(request, table_name@, partition@),
{
    let mut key = Item::new();
    key.insert(PARTITION_KEY_NAME.to_owned(), AttributeValue::S(partition.to_owned()));
    proof {
        assert(key@.dom() =~= set![PARTITION_KEY_NAME@]);
    }
    GetItemRequest { table_name: table_name.to_owned(), key }
}

/// `request` stores, in the table `table_name`, the item made of the
/// partition key set to the string `partition` with every attribute of
/// `values` written over it.
pub open spec fn is_put_item_request(
    request: PutItemRequest,
    table_name: Seq<char>,
    partition: Seq<char>,
    values: Map<Seq<char>, AttributeValue>,
) -> bool {
    &&& request.table_name@ == table_name
    &&& request.item@.dom() == values.dom().insert(PARTITION_KEY_NAME@)
    &&& forall|name: Seq<char>| #[trigger]
        values.dom().contains(name) ==> request.item@[name] == values[name]
    &&& !values.dom().contains(PARTITION_KEY_NAME@) ==> is_string_attr(
        request.item@[PARTITION_KEY_NAME@],
        partition,
    )
}

/// The request that stores, in `table_name`, an item made of the partition key
/// set to the string `partition` and then every attribute of `values` written
/// over it (so an attribute of `values` named like the partition key wins).
pub fn put_item_request(table_name: &str, partition: &str, values: Item) -> (request: PutItemRequest)
    ensures
        is_put_item_request(request, table_name@, partition@, values@),
{
    let mut item = Item::new();
    item.insert(PARTITION_KEY_NAME.to_owned(), AttributeValue::S(partition.to_owned()));
    item.extend(values);
    proof {
        assert(item@.dom() =~= values@.dom().insert(PARTITION_KEY_NAME@));
    }
    PutItemRequest { table_name: table_name.to_owned(), item }
}

/// An item written with the partition key `partition` is the one a read with
/// that key names: same table, and the read's only key attribute is the
/// written item's partition key, holding the same string. This holds where
/// the written values do not themselves set the partition key.
pub proof fn lemma_read_names_written_item(
    put: PutItemRequest,
    get: GetItemRequest,
    table_name: Seq<char>,
    partition: Seq<char>,
    values: Map<Seq<char>, AttributeValue>,
)
    requires
        is_put_item_request(put, table_name, partition, values),
        is_get_item_request(get, table_name, partition),
        !values.dom().contains(PARTITION_KEY_NAME@),
    ensures
        get.table_name@ == put.table_name@,
        get.key@.dom().subset_of(put.item@.dom()),
        forall|name: Seq<char>| #[trigger] get.key@.dom().contains(name) ==> {
            &&& is_string_attr(get.key@[name], partition)
            &&& is_string_attr(put.item@[name], partition)
        },
{
}

/// The lower-case hexadecimal digits, in order of value.
pub open spec fn lower_hex_digits() -> Seq<char> {
    seq!['0', '1', '2', '3', '4', '5', '6', '7', '8', '9', 'a', 'b', 'c', 'd', 'e', 'f']
}

/// `bytes` written as two lower-case hexadecimal digits per byte, high
/// nibble first.
pub open spec fn lower_hex(bytes: Seq<u8>) -> Seq<char> {
    Seq::new(
        2 * bytes.len(),
        |i: int|
            if i % 2 == 0 {
                lower_hex_digits()[(bytes[i / 2] >> 4u8) as int]
            } else {
                lower_hex_digits()[(bytes[i / 2] & 0x0fu8) as int]
            },
    )
}

/// `bytes` are the sixteen bytes of a random (version 4, RFC 4122 variant) UUID.
pub open spec fn is_v4_uuid_bytes(bytes: Seq<u8>) -> bool {
    &&& bytes.len() == 16
    &&& bytes[6] & 0xf0u8 == 0x40u8
    &&& bytes[8] & 0xc0u8 == 0x80u8
}

/// `id` is a random UUID in the simple format: 32 lower-case hexadecimal
/// digits, the version digit `4` at position 12 and one of `8`, `9`, `a`, `b`
/// at position 16.
pub open spec fn is_simple_v4_uuid(id: Seq<char>) -> bool {
    &&& id.len() == 32
    &&& forall|i: int| 0 <= i < 32 ==> lower_hex_digits().contains(#[trigger] id[i])
    &&& id[12] == '4'
    &&& (id[16] == '8' || id[16] == '9' || id[16] == 'a' || id[16] == 'b')
}

/// Calls `uuid::Uuid::new_v4` and returns the new UUID's bytes. The source of
/// `new_v4` masks a random 128-bit number so that the version nibble is 4 and
/// the two variant bits are `10`; this contract states those bits and nothing
/// of the others, which are random.
#[verifier::external_body]
fn new_v4_uuid_bytes() -> (bytes: [u8; 16])
    ensures
        is_v4_uuid_bytes(bytes@),
{
    uuid::Uuid::new_v4().into_bytes()
}

/// The lower-case hexadecimal digit of the nibble `n`, as text.
fn lower_hex_digit(n: u8) -> (digit: &'static str)
    requires
        n < 16,
    ensures
        digit@ == seq![lower_hex_digits()[n as int]],
{
    proof {
        reveal_strlit("0");
        reveal_strlit("1");
        reveal_strlit("2");
        reveal_strlit("3");
        reveal_strlit("4");
        reveal_strlit("5");
        reveal_strlit("6");
        reveal_strlit("7");
        reveal_strlit("8");
        reveal_strlit("9");
        reveal_strlit("a");
        reveal_strlit("b");
        reveal_strlit("c");
        reveal_strlit("d");
        reveal_strlit("e");
        reveal_strlit("f");
    }
    match n {
        0 => "0",
        1 => "1",
        2 => "2",
        3 => "3",
        4 => "4",
        5 => "5",
        6 => "6",
        7 => "7",
        8 => "8",
        9 => "9",
        10 => "a",
        11 => "b",
        12 => "c",
        13 => "d",
        14 => "e",
        _ => "f",
    }
}

/// The simple lower-case form of the UUID made of `bytes`: its 32 lower-case
/// hexadecimal digits, high nibble first, with no separators.
pub fn encode_simple_lower(bytes: &[u8; 16]) -> (encoded: String)
    ensures
        encoded@ == lower_hex(bytes@),
{
    let ghost all = lower_hex(bytes@);
    let mut encoded = String::new();
    let mut i: usize = 0;
    while i < 16
        invariant
            i <= 16,
            bytes@.len() == 16,
            all == lower_hex(bytes@),
            encoded@ == all.take(2 * i),
        decreases 16 - i,
    {
        let b = bytes[i];
        assert(b >> 4u8 < 16u8) by (bit_vector);
        assert(b & 0x0fu8 < 16u8) by (bit_vector);
        encoded.append(lower_hex_digit(b >> 4));
        encoded.append(lower_hex_digit(b & 0x0f));
        proof {
            assert(all[2 * i as int] == lower_hex_digits()[(b >> 4u8) as int]);
            assert(all[2 * i + 1] == lower_hex_digits()[(b & 0x0fu8) as int]);
            assert(encoded@ =~= all.take(2 * (i + 1)));
        }
        i = i + 1;
    }
    proof {
        assert(all.take(32) =~= all);
    }
    encoded
}

/// Distinct byte sequences of one length have distinct lower-case
/// hexadecimal forms: the simple form of a UUID determines its bytes.
pub proof fn lemma_lower_hex_injective(a: Seq<u8>, b: Seq<u8>)
    requires
        a.len() == b.len(),
        lower_hex(a) == lower_hex(b),
    ensures
        a == b,
{
    let d = lower_hex_digits();
    assert forall|x: int, y: int| 0 <= x < 16 && 0 <= y < 16 && #[trigger] d[x] == #[trigger] d[y] implies x
        == y by {
        assert(x == 0 || x == 1 || x == 2 || x == 3 || x == 4 || x == 5 || x == 6 || x == 7 || x == 8
            || x == 9 || x == 10 || x == 11 || x == 12 || x == 13 || x == 14 || x == 15);
        assert(y == 0 || y == 1 || y == 2 || y == 3 || y == 4 || y == 5 || y == 6 || y == 7 || y == 8
            || y == 9 || y == 10 || y == 11 || y == 12 || y == 13 || y == 14 || y == 15);
    }
    assert forall|i: int| 0 <= i < a.len() implies a[i] == b[i] by {
        let x = a[i];
        let y = b[i];
        assert(x >> 4u8 < 16u8) by (bit_vector);
        assert(x & 0x0fu8 < 16u8) by (bit_vector);
        assert(y >> 4u8 < 16u8) by (bit_vector);
        assert(y & 0x0fu8 < 16u8) by (bit_vector);
        assert(lower_hex(a)[2 * i] == lower_hex(b)[2 * i]);
        assert(lower_hex(a)[2 * i + 1] == lower_hex(b)[2 * i + 1]);
        assert((2 * i) / 2 == i && (2 * i) % 2 == 0);
        assert((2 * i + 1) / 2 == i && (2 * i + 1) % 2 == 1);
        assert(lower_hex(a)[2 * i] == d[(x >> 4u8) as int]);
        assert(lower_hex(b)[2 * i] == d[(y >> 4u8) as int]);
        assert(lower_hex(a)[2 * i + 1] == d[(x & 0x0fu8) as int]);
        assert(lower_hex(b)[2 * i + 1] == d[(y & 0x0fu8) as int]);
        assert(x >> 4u8 == y >> 4u8);
        assert(x & 0x0fu8 == y & 0x0fu8);
        assert((x >> 4u8 == y >> 4u8 && x & 0x0fu8 == y & 0x0fu8) ==> x == y) by (bit_vector);
    }
    assert(a =~= b);
}

/// The simple lower-case form of the bytes of a random UUID is a simple
/// random UUID.
pub proof fn lemma_lower_hex_of_v4(bytes: Seq<u8>)
    requires
        is_v4_uuid_bytes(bytes),
    ensures
        is_simple_v4_uuid(lower_hex(bytes)),
{
    let id = lower_hex(bytes);
    assert forall|i: int| 0 <= i < 32 implies lower_hex_digits().contains(#[trigger] id[i]) by {
        let b = bytes[i / 2];
        assert(b >> 4u8 < 16u8) by (bit_vector);
        assert(b & 0x0fu8 < 16u8) by (bit_vector);
        if i % 2 == 0 {
            assert(lower_hex_digits()[(b >> 4u8) as int] == id[i]);
        } else {
            assert(lower_hex_digits()[(b & 0x0fu8) as int] == id[i]);
        }
    }
    let b6 = bytes[6];
    let b8 = bytes[8];
    assert(b6 & 0xf0u8 == 0x40u8 ==> b6 >> 4u8 == 4u8) by (bit_vector);
    assert(b8 & 0xc0u8 == 0x80u8 ==> 8u8 <= b8 >> 4u8 <= 11u8) by (bit_vector);
    assert(id[12] == lower_hex_digits()[4]);
    assert(id[16] == lower_hex_digits()[(b8 >> 4u8) as int]);
}

/// The bytes of a UUID drawn from the random source. Only `draw_uuid` makes
/// one: the field is private to this module and nothing else here builds the
/// type, so outside this module a `DrawnUuid` is always the result of a draw.
pub struct DrawnUuid {
    bytes: [u8; 16],
}

impl View for DrawnUuid {
    type V = Seq<u8>;

    /// The sixteen bytes drawn.
    closed spec fn view(&self) -> Seq<u8> {
        self.bytes@
    }
}

/// Draws a random (version 4) UUID.
pub fn draw_uuid() -> (drawn: DrawnUuid)
    ensures
        is_v4_uuid_bytes(drawn@),
{
    DrawnUuid { bytes: new_v4_uuid_bytes() }
}

impl DrawnUuid {
    /// The simple lower-case form of the drawn UUID.
    pub fn to_simple_lower(&self) -> (id: String)
        ensures
            id@ == lower_hex(self@),
    {
        encode_simple_lower(&self.bytes)
    }
}

/// `id` is the simple lower-case form of a UUID drawn from the random source.
pub open spec fn is_drawn_uuid(id: Seq<char>) -> bool {
    exists|drawn: DrawnUuid| is_v4_uuid_bytes(drawn@) && id == #[trigger] lower_hex(drawn@)
}

/// The form of a drawn UUID is a simple random UUID: 32 lower-case
/// hexadecimal digits with the version and variant digits set.
pub proof fn lemma_drawn_uuid_is_simple_v4(id: Seq<char>)
    requires
        is_drawn_uuid(id),
    ensures
        is_simple_v4_uuid(id),
{
    let drawn = choose|drawn: DrawnUuid| is_v4_uuid_bytes(drawn@) && id == #[trigger] lower_hex(drawn@);
    lemma_lower_hex_of_v4(drawn@);
}

/// A fresh random identifier for a stored item: a version 4 UUID, drawn from
/// the random source for this call, in its simple lower-case form of 32
/// hexadecimal digits.
pub fn get_uuid() -> (id: String)
    ensures
        is_simple_v4_uuid(id@),
        exists|bytes: Seq<u8>| is_v4_uuid_bytes(bytes) && id@ == lower_hex(bytes),
        is_drawn_uuid(id@),
{
    let drawn = draw_uuid();
    let id = drawn.to_simple_lower();
    proof {
        lemma_lower_hex_of_v4(drawn@);
        assert(is_v4_uuid_bytes(drawn@) && id@ == lower_hex(drawn@));
    }
    id
}

/// The region, access key id and secret key that a client of a local
/// DynamoDB is configured with.
pub const LOCAL_REGION: &'static str = "us-east-1";
pub const LOCAL_ACCESS_KEY_ID: &'static str = "DUMMYIDEXAMPLE";
pub const LOCAL_SECRET_ACCESS_KEY: &'static str = "DUMMYEXAMPLEKEY";

/// How to configure the DynamoDB client.
pub enum ClientSettings {
    /// Talk to a DynamoDB at `endpoint_url`, in `region`, with the given
    /// (placeholder) credentials.
    Local {
        endpoint_url: String,
        region: String,
        access_key_id: String,
        secret_access_key: String,
    },
    /// Take the whole configuration from the environment.
    FromEnvironment,
}

/// The settings of a client of the local DynamoDB at `endpoint_url`.
pub fn get_local_client_settings(endpoint_url: String) -> (settings: ClientSettings)
    ensures
        settings matches ClientSettings::Local { endpoint_url: u, region, access_key_id, secret_access_key } && {
            &&& u@ == endpoint_url@
            &&& region@ == LOCAL_REGION@
            &&& access_key_id@ == LOCAL_ACCESS_KEY_ID@
            &&& secret_access_key@ == LOCAL_SECRET_ACCESS_KEY@
        },
{
    ClientSettings::Local {
        endpoint_url,
        region: LOCAL_REGION.to_owned(),
        access_key_id: LOCAL_ACCESS_KEY_ID.to_owned(),
        secret_access_key: LOCAL_SECRET_ACCESS_KEY.to_owned(),
    }
}

/// The client settings, given the value of the variable that names a local
/// DynamoDB (if it is set): that local DynamoDB where it is set, the
/// environment's configuration where it is not.
pub fn get_client_settings(local_dynamodb_url: Option<String>) -> (settings: ClientSettings)
    ensures
        match local_dynamodb_url {
            Some(url) => settings matches ClientSettings::Local { endpoint_url: u, region, access_key_id, secret_access_key } && {
                &&& u@ == url@
                &&& region@ == LOCAL_REGION@
                &&& access_key_id@ == LOCAL_ACCESS_KEY_ID@
                &&& secret_access_key@ == LOCAL_SECRET_ACCESS_KEY@
            },
            None => settings is FromEnvironment,
        },
{
    match local_dynamodb_url {
        Some(url) => get_local_client_settings(url),
        None => ClientSettings::FromEnvironment,
    }
}

} // verus!
