use crate::bytes::{
    append_bytes, le_u32, le_u64, lemma_u32_le_round_trip, lemma_u64_le_round_trip, push_u32_le,
    push_u64_le, read_u32_le, read_u64_le, u32_le, u64_le,
};
use crate::error::CampaignError;
use sha2::{Digest, Sha256};
use vstd::prelude::*;
use vstd::utf8::*;

verus! {

/// Length of the type tag that leads every encoded instruction.
pub const DISCRIMINATOR_LEN: usize = 8;

/// The SHA-256 digest of `data`.
pub uninterp spec fn sha256_of(data: Seq<u8>) -> Seq<u8>;

/// Relies on `sha2::Sha256::digest`: the SHA-256 digest of the input, which
/// is 32 bytes long.
#[verifier::external_body]
fn sha256(data: &[u8]) -> (r: Vec<u8>)
    ensures
        r@ == sha256_of(data@),
        r@.len() == 32,
{
    Sha256::digest(data).to_vec()
}

/// Relies on `String::from_utf8`: it succeeds exactly on valid UTF-8, and the
/// string then holds those bytes.
#[verifier::external_body]
fn text_from_utf8(bytes: &[u8]) -> (r: Option<String>)
    ensures
        r is Some <==> valid_utf8(bytes@),
        r matches Some(s) ==> encode_utf8(s@) == bytes@,
{
    String::from_utf8(bytes.to_vec()).ok()
}

/// The hashed text `namespace:name`.
pub open spec fn preimage(namespace: Seq<u8>, name: Seq<u8>) -> Seq<u8> {
    namespace + seq![0x3au8] + name
}

/// The first `DISCRIMINATOR_LEN` bytes of the hash of `namespace:name`.
pub open spec fn discriminator_of(namespace: Seq<u8>, name: Seq<u8>) -> Seq<u8> {
    let h = sha256_of(preimage(namespace, name));
    Seq::new(DISCRIMINATOR_LEN as nat, |i: int| h[i])
}

/// The namespace of instruction discriminators: `global`.
pub open spec fn instruction_namespace() -> Seq<u8> {
    seq![0x67u8, 0x6c, 0x6f, 0x62, 0x61, 0x6c]
}

/// `create`
pub open spec fn create_name() -> Seq<u8> {
    seq![0x63u8, 0x72, 0x65, 0x61, 0x74, 0x65]
}

/// `donate`
pub open spec fn donate_name() -> Seq<u8> {
    seq![0x64u8, 0x6f, 0x6e, 0x61, 0x74, 0x65]
}

/// `withdraw`
pub open spec fn withdraw_name() -> Seq<u8> {
    seq![0x77u8, 0x69, 0x74, 0x68, 0x64, 0x72, 0x61, 0x77]
}

pub open spec fn create_discriminator() -> Seq<u8> {
    discriminator_of(instruction_namespace(), create_name())
}

pub open spec fn donate_discriminator() -> Seq<u8> {
    discriminator_of(instruction_namespace(), donate_name())
}

pub open spec fn withdraw_discriminator() -> Seq<u8> {
    discriminator_of(instruction_namespace(), withdraw_name())
}

/// The three instruction discriminators differ from one another.
pub open spec fn discriminators_distinct() -> bool {
    create_discriminator() != donate_discriminator() && create_discriminator() != withdraw_discriminator()
        && donate_discriminator() != withdraw_discriminator()
}

/// The discriminator of the operation `name` in `namespace`.
pub fn generate_discriminator(namespace: &[u8], name: &[u8]) -> (r: Vec<u8>)
    ensures
        r@ == discriminator_of(namespace@, name@),
{
    let mut text: Vec<u8> = Vec::new();
    append_bytes(&mut text, namespace);
    text.push(0x3a);
    append_bytes(&mut text, name);
    assert(text@ =~= preimage(namespace@, name@));
    let h = sha256(text.as_slice());
    let mut r: Vec<u8> = Vec::new();
    let mut i: usize = 0;
    while i < DISCRIMINATOR_LEN
        invariant
            i <= DISCRIMINATOR_LEN,
            h@.len() == 32,
            r@ =~= h@.subrange(0, i as int),
        decreases DISCRIMINATOR_LEN - i,
    {
        r.push(h[i]);
        i = i + 1;
        assert(r@ =~= h@.subrange(0, i as int));
    }
    assert(r@ =~= discriminator_of(namespace@, name@));
    r
}

fn namespace_bytes() -> (r: Vec<u8>)
    ensures
        r@ == instruction_namespace(),
{
    let r = vec![0x67u8, 0x6c, 0x6f, 0x62, 0x61, 0x6c];
    assert(r@ =~= instruction_namespace());
    r
}

/// The discriminator of the Create instruction.
pub fn create_tag() -> (r: Vec<u8>)
    ensures
        r@ == create_discriminator(),
{
    let name = vec![0x63u8, 0x72, 0x65, 0x61, 0x74, 0x65];
    assert(name@ =~= create_name());
    generate_discriminator(namespace_bytes().as_slice(), name.as_slice())
}

/// The discriminator of the Donate instruction.
pub fn donate_tag() -> (r: Vec<u8>)
    ensures
        r@ == donate_discriminator(),
{
    let name = vec![0x64u8, 0x6f, 0x6e, 0x61, 0x74, 0x65];
    assert(name@ =~= donate_name());
    generate_discriminator(namespace_bytes().as_slice(), name.as_slice())
}

/// The discriminator of the Withdraw instruction.
pub fn withdraw_tag() -> (r: Vec<u8>)
    ensures
        r@ == withdraw_discriminator(),
{
    let name = vec![0x77u8, 0x69, 0x74, 0x68, 0x64, 0x72, 0x61, 0x77];
    assert(name@ =~= withdraw_name());
    generate_discriminator(namespace_bytes().as_slice(), name.as_slice())
}

/// Whether the three instruction discriminators differ, as decoding needs.
pub fn check_discriminators_distinct() -> (r: bool)
    ensures
        r == discriminators_distinct(),
{
    let c = create_tag();
    let d = donate_tag();
    let w = withdraw_tag();
    !bytes_equal(&c, &d) && !bytes_equal(&c, &w) && !bytes_equal(&d, &w)
}

/// Whether two byte strings are equal.
pub fn bytes_equal(a: &Vec<u8>, b: &Vec<u8>) -> (r: bool)
    ensures
        r == (a@ == b@),
{
    if a.len() != b.len() {
        return false;
    }
    let mut i: usize = 0;
    while i < a.len()
        invariant
            a@.len() == b@.len(),
            i <= a@.len(),
            forall|j: int| 0 <= j < i ==> a@[j] == b@[j],
        decreases a@.len() - i,
    {
        if a[i] != b[i] {
            return false;
        }
        i = i + 1;
    }
    assert(a@ =~= b@);
    true
}

/// A request to the campaign program.
#[derive(Debug)]
pub enum CampaignInstruction {
    Create { name: String, description: String },
    Donate { amount: u64 },
    Withdraw { amount: u64 },
}

/// The meaning of a request: texts as characters.
pub enum InstructionModel {
    Create { name: Seq<char>, description: Seq<char> },
    Donate { amount: u64 },
    Withdraw { amount: u64 },
}

impl View for CampaignInstruction {
    type V = InstructionModel;

    open spec fn view(&self) -> InstructionModel {
        match self {
            CampaignInstruction::Create { name, description } => InstructionModel::Create {
                name: name@,
                description: description@,
            },
            CampaignInstruction::Donate { amount } => InstructionModel::Donate { amount: *amount },
            CampaignInstruction::Withdraw { amount } => InstructionModel::Withdraw { amount: *amount },
        }
    }
}

/// A text on the wire: its UTF-8 length as four bytes, then its UTF-8 bytes.
pub open spec fn encode_text(s: Seq<char>) -> Seq<u8> {
    u32_le(encode_utf8(s).len() as u32) + encode_utf8(s)
}

/// Whether a text's length fits the wire format's length field.
pub open spec fn text_fits(s: Seq<char>) -> bool {
    encode_utf8(s).len() <= u32::MAX
}

/// Whether a request can be written in the wire format.
pub open spec fn encodable(op: InstructionModel) -> bool {
    match op {
        InstructionModel::Create { name, description } => text_fits(name) && text_fits(description),
        _ => true,
    }
}

/// The wire form of a request: discriminator, then payload, with no padding.
pub open spec fn encode_spec(op: InstructionModel) -> Seq<u8> {
    match op {
        InstructionModel::Create { name, description } => create_discriminator() + encode_text(name)
            + encode_text(description),
        InstructionModel::Donate { amount } => donate_discriminator() + u64_le(amount),
        InstructionModel::Withdraw { amount } => withdraw_discriminator() + u64_le(amount),
    }
}

/// Reads a text at `off` of `p`: its characters and the offset after it.
pub open spec fn parse_text(p: Seq<u8>, off: int) -> Option<(Seq<char>, int)> {
    if off + 4 > p.len() {
        None
    } else {
        let n = le_u32(p.subrange(off, off + 4)) as int;
        if off + 4 + n > p.len() {
            None
        } else {
            let bytes = p.subrange(off + 4, off + 4 + n);
            if valid_utf8(bytes) {
                Some((decode_utf8(bytes), off + 4 + n))
            } else {
                None
            }
        }
    }
}

/// The Create payload: two texts that fill it exactly.
pub open spec fn parse_create(p: Seq<u8>) -> Option<InstructionModel> {
    match parse_text(p, 0) {
        None => None,
        Some((name, mid)) => match parse_text(p, mid) {
            None => None,
            Some((description, end)) => if end == p.len() {
                Some(InstructionModel::Create { name, description })
            } else {
                None
            },
        },
    }
}

/// An amount payload: exactly eight bytes.
pub open spec fn parse_amount(p: Seq<u8>) -> Option<u64> {
    if p.len() == 8 {
        Some(le_u64(p))
    } else {
        None
    }
}

/// What decoding makes of a buffer. An unknown discriminator is reported
/// before the payload is looked at.
pub open spec fn decode_spec(b: Seq<u8>) -> Result<InstructionModel, CampaignError> {
    if b.len() < DISCRIMINATOR_LEN {
        Err(CampaignError::MalformedPayload)
    } else {
        let d = b.subrange(0, DISCRIMINATOR_LEN as int);
        let p = b.subrange(DISCRIMINATOR_LEN as int, b.len() as int);
        if d == create_discriminator() {
            match parse_create(p) {
                Some(op) => Ok(op),
                None => Err(CampaignError::MalformedPayload),
            }
        } else if d == donate_discriminator() {
            match parse_amount(p) {
                Some(amount) => Ok(InstructionModel::Donate { amount }),
                None => Err(CampaignError::MalformedPayload),
            }
        } else if d == withdraw_discriminator() {
            match parse_amount(p) {
                Some(amount) => Ok(InstructionModel::Withdraw { amount }),
                None => Err(CampaignError::MalformedPayload),
            }
        } else {
            Err(CampaignError::UnknownInstruction)
        }
    }
}

proof fn lemma_parse_encoded_text(pre: Seq<u8>, s: Seq<char>, post: Seq<u8>)
    requires
        text_fits(s),
    ensures
        parse_text(pre + encode_text(s) + post, pre.len() as int) == Some(
            (s, (pre.len() + encode_text(s).len()) as int),
        ),
{
    let p = pre + encode_text(s) + post;
    let off = pre.len() as int;
    let bytes = encode_utf8(s);
    let n = bytes.len();
    assert(p.subrange(off, off + 4) =~= u32_le(n as u32));
    lemma_u32_le_round_trip(n as u32);
    assert(p.subrange(off + 4, off + 4 + n) =~= bytes);
    encode_utf8_valid_utf8(s);
    encode_utf8_decode_utf8(s);
}

/// Decoding the wire form of a request gives back the same operation with
/// the same arguments, as long as the three discriminators differ.
pub proof fn lemma_decode_encode(op: InstructionModel)
    requires
        encodable(op),
        discriminators_distinct(),
    ensures
        decode_spec(encode_spec(op)) == Ok::<InstructionModel, CampaignError>(op),
{
    let b = encode_spec(op);
    let len = DISCRIMINATOR_LEN as int;
    match op {
        InstructionModel::Create { name, description } => {
            let tn = encode_text(name);
            let td = encode_text(description);
            assert(b.subrange(0, len) =~= create_discriminator());
            let p = b.subrange(len, b.len() as int);
            assert(p =~= Seq::<u8>::empty() + tn + td);
            lemma_parse_encoded_text(Seq::<u8>::empty(), name, td);
            assert(p =~= tn + encode_text(description) + Seq::<u8>::empty());
            lemma_parse_encoded_text(tn, description, Seq::<u8>::empty());
        },
        InstructionModel::Donate { amount } => {
            assert(b.subrange(0, len) =~= donate_discriminator());
            assert(b.subrange(len, b.len() as int) =~= u64_le(amount));
            lemma_u64_le_round_trip(amount);
        },
        InstructionModel::Withdraw { amount } => {
            assert(b.subrange(0, len) =~= withdraw_discriminator());
            assert(b.subrange(len, b.len() as int) =~= u64_le(amount));
            lemma_u64_le_round_trip(amount);
        },
    }
}

pub open spec fn decoded_view(r: Result<CampaignInstruction, CampaignError>) -> Result<InstructionModel, CampaignError> {
    match r {
        Ok(op) => Ok(op@),
        Err(e) => Err(e),
    }
}

fn push_text(out: &mut Vec<u8>, s: &String)
    requires
        text_fits(s@),
    ensures
        final(out)@ == old(out)@ + encode_text(s@),
{
    let b = s.as_str().as_bytes();
    push_u32_le(out, b.len() as u32);
    append_bytes(out, b);
    assert(final(out)@ =~= old(out)@ + encode_text(s@));
}

fn read_text(p: &[u8], off: usize) -> (r: Option<(String, usize)>)
    requires
        off <= p@.len(),
    ensures
        match r {
            Some((s, end)) => parse_text(p@, off as int) == Some((s@, end as int)),
            None => parse_text(p@, off as int) is None,
        },
{
    if p.len() - off < 4 {
        return None;
    }
    let n = read_u32_le(p, off) as usize;
    if p.len() - off - 4 < n {
        return None;
    }
    let start = off + 4;
    let bytes = vstd::slice::slice_subrange(p, start, start + n);
    match text_from_utf8(bytes) {
        Some(s) => {
            proof {
                encode_utf8_decode_utf8(s@);
            }
            Some((s, start + n))
        },
        None => None,
    }
}

fn starts_with_tag(b: &[u8], tag: &Vec<u8>) -> (r: bool)
    requires
        tag@.len() == DISCRIMINATOR_LEN,
        b@.len() >= DISCRIMINATOR_LEN,
    ensures
        r == (b@.subrange(0, DISCRIMINATOR_LEN as int) == tag@),
{
    let mut i: usize = 0;
    while i < DISCRIMINATOR_LEN
        invariant
            i <= DISCRIMINATOR_LEN,
            tag@.len() == DISCRIMINATOR_LEN,
            b@.len() >= DISCRIMINATOR_LEN,
            forall|j: int| 0 <= j < i ==> b@[j] == tag@[j],
        decreases DISCRIMINATOR_LEN - i,
    {
        if b[i] != tag[i] {
            return false;
        }
        i = i + 1;
    }
    assert(b@.subrange(0, DISCRIMINATOR_LEN as int) =~= tag@);
    true
}

impl CampaignInstruction {
    /// The wire form of this request.
    pub fn encode(&self) -> (r: Vec<u8>)
        requires
            encodable(self@),
        ensures
            r@ == encode_spec(self@),
    {
        match self {
            CampaignInstruction::Create { name, description } => {
                let mut out = create_tag();
                push_text(&mut out, name);
                push_text(&mut out, description);
                out
            },
            CampaignInstruction::Donate { amount } => {
                let mut out = donate_tag();
                push_u64_le(&mut out, *amount);
                out
            },
            CampaignInstruction::Withdraw { amount } => {
                let mut out = withdraw_tag();
                push_u64_le(&mut out, *amount);
                out
            },
        }
    }

    /// Reads a request from its wire form.
    pub fn decode(data: &[u8]) -> (r: Result<CampaignInstruction, CampaignError>)
        ensures
            decoded_view(r) == decode_spec(data@),
    {
        if data.len() < DISCRIMINATOR_LEN {
            return Err(CampaignError::MalformedPayload);
        }
        let p = vstd::slice::slice_subrange(data, DISCRIMINATOR_LEN, data.len());
        let create = create_tag();
        let donate = donate_tag();
        let withdraw = withdraw_tag();
        if starts_with_tag(data, &create) {
            match read_text(p, 0) {
                None => Err(CampaignError::MalformedPayload),
                Some((name, mid)) => match read_text(p, mid) {
                    None => Err(CampaignError::MalformedPayload),
                    Some((description, end)) => if end == p.len() {
                        Ok(CampaignInstruction::Create { name, description })
                    } else {
                        Err(CampaignError::MalformedPayload)
                    },
                },
            }
        } else if starts_with_tag(data, &donate) {
            if p.len() == 8 {
                Ok(CampaignInstruction::Donate { amount: read_u64_le(p, 0) })
            } else {
                Err(CampaignError::MalformedPayload)
            }
        } else if starts_with_tag(data, &withdraw) {
            if p.len() == 8 {
                Ok(CampaignInstruction::Withdraw { amount: read_u64_le(p, 0) })
            } else {
                Err(CampaignError::MalformedPayload)
            }
        } else {
            Err(CampaignError::UnknownInstruction)
        }
    }
}

} // verus!
