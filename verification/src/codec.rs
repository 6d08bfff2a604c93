//! Byte layout of the environment record.
//!
//! Every field is one little-endian 32-bit word; the record is the
//! concatenation of its words in layout order. Encoding and decoding are
//! proved inverse to each other, which is what the fixed-layout protocol
//! rests on: both sides read back exactly the bits the other wrote.

use vstd::bytes::{
    lemma_auto_spec_u32_to_from_le_bytes, spec_u32_from_le_bytes, spec_u32_to_le_bytes,
    u32_from_le_bytes, u32_to_le_bytes,
};
use vstd::prelude::*;
use vstd::slice::slice_subrange;

use crate::environment::{
    decode_state, encode_state, environment_words, i32_of_word, i32_to_word,
    lemma_i32_word_round_trip, lemma_state_code_round_trip, state_of_code, word_to_i32,
    FunctionOffsets, IslandEnvironment, ENVIRONMENT_BYTES, ENVIRONMENT_WORDS,
};

verus! {

/// The bytes of a word sequence: each word in little-endian order, concatenated.
pub open spec fn words_to_bytes(ws: Seq<u32>) -> Seq<u8>
    decreases ws.len(),
{
    if ws.len() == 0 {
        Seq::empty()
    } else {
        spec_u32_to_le_bytes(ws[0]) + words_to_bytes(ws.drop_first())
    }
}

/// The `k`-th little-endian word of a byte sequence.
pub open spec fn word_at(bs: Seq<u8>, k: int) -> u32 {
    spec_u32_from_le_bytes(bs.subrange(4 * k, 4 * k + 4))
}

pub proof fn lemma_words_to_bytes_len(ws: Seq<u32>)
    ensures
        words_to_bytes(ws).len() == 4 * ws.len(),
    decreases ws.len(),
{
    lemma_auto_spec_u32_to_from_le_bytes();
    if ws.len() > 0 {
        lemma_words_to_bytes_len(ws.drop_first());
    }
}

pub proof fn lemma_words_to_bytes_word_at(ws: Seq<u32>, k: int)
    requires
        0 <= k < ws.len(),
    ensures
        word_at(words_to_bytes(ws), k) == ws[k],
    decreases ws.len(),
{
    lemma_auto_spec_u32_to_from_le_bytes();
    let head = spec_u32_to_le_bytes(ws[0]);
    let tail = words_to_bytes(ws.drop_first());
    lemma_words_to_bytes_len(ws.drop_first());
    if k == 0 {
        assert(words_to_bytes(ws).subrange(0, 4) =~= head);
    } else {
        lemma_words_to_bytes_word_at(ws.drop_first(), k - 1);
        assert(words_to_bytes(ws).subrange(4 * k, 4 * k + 4) =~= tail.subrange(
            4 * (k - 1),
            4 * (k - 1) + 4,
        ));
    }
}

pub proof fn lemma_words_to_bytes_push(ws: Seq<u32>, w: u32)
    ensures
        words_to_bytes(ws.push(w)) == words_to_bytes(ws) + spec_u32_to_le_bytes(w),
    decreases ws.len(),
{
    if ws.len() == 0 {
        assert(ws.push(w).drop_first() =~= ws);
        assert(words_to_bytes(ws.push(w)) =~= words_to_bytes(ws) + spec_u32_to_le_bytes(w));
    } else {
        lemma_words_to_bytes_push(ws.drop_first(), w);
        assert(ws.push(w).drop_first() =~= ws.drop_first().push(w));
        assert(words_to_bytes(ws.push(w)) =~= words_to_bytes(ws) + spec_u32_to_le_bytes(w));
    }
}

/// The wire image of an environment record.
pub open spec fn spec_encode_environment(e: IslandEnvironment) -> Seq<u8> {
    words_to_bytes(environment_words(e))
}

/// The record a byte sequence carries: `None` when the length or the state
/// code is not the record layout's.
pub open spec fn spec_decode_environment(bs: Seq<u8>) -> Option<IslandEnvironment> {
    if bs.len() != ENVIRONMENT_BYTES {
        None
    } else {
        match state_of_code(word_at(bs, 0)) {
            Option::None => None,
            Option::Some(st) => Some(
                IslandEnvironment {
                    state: st,
                    last_error: word_at(bs, 1),
                    function_offsets: FunctionOffsets {
                        find_string: word_at(bs, 2),
                        set_field_of_view: word_at(bs, 3),
                        set_enable_fog_rendering: word_at(bs, 4),
                        set_target_frame_rate: word_at(bs, 5),
                        open_team: word_at(bs, 6),
                        open_team_page_accordingly: word_at(bs, 7),
                        check_can_enter: word_at(bs, 8),
                        craft_entry: word_at(bs, 9),
                        craft_entry_partner: word_at(bs, 10),
                    },
                    field_of_view: word_at(bs, 11),
                    fix_low_fov_scene: word_at(bs, 12),
                    disable_fog: word_at(bs, 13),
                    target_frame_rate: i32_of_word(word_at(bs, 14)),
                    remove_open_team_progress: word_at(bs, 15),
                    redirect_craft_entry: word_at(bs, 16),
                },
            ),
        }
    }
}

/// Writing a record and reading the bytes back yields the record unchanged,
/// bit-identical in every field.
pub proof fn lemma_environment_round_trip(e: IslandEnvironment)
    ensures
        spec_decode_environment(spec_encode_environment(e)) == Some(e),
{
    let ws = environment_words(e);
    let bs = spec_encode_environment(e);
    lemma_words_to_bytes_len(ws);
    assert forall|k: int| 0 <= k < ENVIRONMENT_WORDS implies word_at(bs, k) == ws[k] by {
        lemma_words_to_bytes_word_at(ws, k);
    }
    lemma_state_code_round_trip(e.state);
    lemma_i32_word_round_trip(e.target_frame_rate);
}

/// The exact wire words of a record, in layout order.
fn environment_word_vec(e: &IslandEnvironment) -> (ws: Vec<u32>)
    ensures
        ws@ == environment_words(*e),
{
    let mut ws: Vec<u32> = Vec::new();
    ws.push(encode_state(e.state));
    ws.push(e.last_error);
    ws.push(e.function_offsets.find_string);
    ws.push(e.function_offsets.set_field_of_view);
    ws.push(e.function_offsets.set_enable_fog_rendering);
    ws.push(e.function_offsets.set_target_frame_rate);
    ws.push(e.function_offsets.open_team);
    ws.push(e.function_offsets.open_team_page_accordingly);
    ws.push(e.function_offsets.check_can_enter);
    ws.push(e.function_offsets.craft_entry);
    ws.push(e.function_offsets.craft_entry_partner);
    ws.push(e.field_of_view);
    ws.push(e.fix_low_fov_scene);
    ws.push(e.disable_fog);
    ws.push(i32_to_word(e.target_frame_rate));
    ws.push(e.remove_open_team_progress);
    ws.push(e.redirect_craft_entry);
    assert(ws@ =~= environment_words(*e));
    ws
}

/// Serialize a record into its fixed 68-byte wire image.
pub fn encode_environment(e: &IslandEnvironment) -> (out: Vec<u8>)
    ensures
        out@ == spec_encode_environment(*e),
        out@.len() == ENVIRONMENT_BYTES,
{
    let ws = environment_word_vec(e);
    let mut out: Vec<u8> = Vec::new();
    let mut i: usize = 0;
    proof {
        assert(ws@.subrange(0, 0) =~= Seq::<u32>::empty());
    }
    while i < ws.len()
        invariant
            i <= ws@.len(),
            ws@ == environment_words(*e),
            out@ == words_to_bytes(ws@.subrange(0, i as int)),
        decreases ws@.len() - i,
    {
        let mut word_bytes = u32_to_le_bytes(ws[i]);
        proof {
            lemma_words_to_bytes_push(ws@.subrange(0, i as int), ws@[i as int]);
            assert(ws@.subrange(0, i as int).push(ws@[i as int]) =~= ws@.subrange(
                0,
                i as int + 1,
            ));
        }
        out.append(&mut word_bytes);
        i = i + 1;
    }
    proof {
        assert(ws@.subrange(0, ws@.len() as int) =~= ws@);
        lemma_words_to_bytes_len(ws@);
    }
    out
}

/// The `k`-th little-endian word of an encoded record.
fn read_word(bytes: &[u8], k: usize) -> (w: u32)
    requires
        4 * k + 4 <= bytes@.len(),
    ensures
        w == word_at(bytes@, k as int),
{
    let n = bytes.len();
    assert(4 * k + 4 <= n);
    let chunk = slice_subrange(bytes, 4 * k, 4 * k + 4);
    u32_from_le_bytes(chunk)
}

/// Deserialize a record from its wire image. Returns `None` when the byte
/// length or the state code does not match the record layout.
pub fn decode_environment(bytes: &[u8]) -> (r: Option<IslandEnvironment>)
    ensures
        r == spec_decode_environment(bytes@),
{
    if bytes.len() != ENVIRONMENT_BYTES {
        return None;
    }
    let state = match decode_state(read_word(bytes, 0)) {
        Option::None => {
            return None;
        },
        Option::Some(st) => st,
    };
    Some(
        IslandEnvironment {
            state,
            last_error: read_word(bytes, 1),
            function_offsets: FunctionOffsets {
                find_string: read_word(bytes, 2),
                set_field_of_view: read_word(bytes, 3),
                set_enable_fog_rendering: read_word(bytes, 4),
                set_target_frame_rate: read_word(bytes, 5),
                open_team: read_word(bytes, 6),
                open_team_page_accordingly: read_word(bytes, 7),
                check_can_enter: read_word(bytes, 8),
                craft_entry: read_word(bytes, 9),
                craft_entry_partner: read_word(bytes, 10),
            },
            field_of_view: read_word(bytes, 11),
            fix_low_fov_scene: read_word(bytes, 12),
            disable_fog: read_word(bytes, 13),
            target_frame_rate: word_to_i32(read_word(bytes, 14)),
            remove_open_team_progress: read_word(bytes, 15),
            redirect_craft_entry: read_word(bytes, 16),
        },
    )
}

} // verus!
