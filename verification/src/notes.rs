//! The notes of the order book, described by plain values: who sends them, how they are
//! tagged, what they carry, and the inputs their scripts read. A `NoteDraft` holds
//! everything of a Miden note except its compiled script.
use vstd::prelude::*;
use crate::field::{all_felts, felt_of, is_felt, merge, reduce, rpo256_merge};

verus! {

/// An account id, as the canonical values of its two field elements.
#[derive(Clone, Copy, Debug, PartialEq, Eq, Structural)]
pub struct AccountIdParts {
    pub prefix: u64,
    pub suffix: u64,
}

/// Who may see a note's details.
#[derive(Clone, Copy, Debug, PartialEq, Eq, Structural)]
pub enum NoteKind {
    Public,
    Private,
    Encrypted,
}

/// When a note may be consumed (the variants of `NoteExecutionHint` of `miden-objects`).
#[derive(Clone, Copy, Debug, PartialEq, Eq, Structural)]
pub enum ExecutionHint {
    /// No condition is known.
    NoHint,
    Always,
    /// Consumable after the given block.
    AfterBlock(u32),
    /// Consumable in slots of a round: round length, slot length and slot offset.
    OnBlockSlot(u8, u8, u8),
}

/// A note described by plain values: every field element is held as its canonical value,
/// and each asset as its word.
#[derive(Clone, Debug)]
pub struct NoteDraft {
    pub sender: AccountIdParts,
    pub note_type: NoteKind,
    pub tag: u32,
    pub execution_hint: ExecutionHint,
    pub aux: u64,
    pub assets: Vec<[u64; 4]>,
    pub serial_num: [u64; 4],
    pub inputs: Vec<u64>,
}

/// Both elements of the account id are canonical field elements.
pub open spec fn parts_are_felts(id: AccountIdParts) -> bool {
    is_felt(id.prefix) && is_felt(id.suffix)
}

/// The note tag that `build_swap_tag` of `miden-lib` gives a swap of the asset whose faucet
/// id prefix is `offered_prefix` for the one whose prefix is `requested_prefix`: use case
/// 0, payload the top byte of each prefix (offered, then requested); a public note gets a
/// public use-case tag (high bits `0b10`), any other a local one (high bits `0b11`).
pub open spec fn swap_tag(note_type: NoteKind, offered_prefix: u64, requested_prefix: u64) -> u32 {
    let payload = ((((offered_prefix >> 56u64) << 8u64) | (requested_prefix >> 56u64)) as u32);
    if note_type == NoteKind::Public {
        0x8000_0000u32 | payload
    } else {
        0xc000_0000u32 | payload
    }
}

/// The note tag that `NoteTag::from_account_id` of `miden-objects` gives an account with
/// local execution: bits 16 to 29 are bits 50 to 63 of the id prefix, the two high bits are
/// set, the rest are zero.
pub open spec fn local_account_tag(prefix: u64) -> u32 {
    (((prefix >> 34u64) as u32) & 0xffff_0000u32) | 0xc000_0000u32
}

/// The faucet id prefix of an asset: the last element of its word, for fungible and
/// non-fungible assets alike.
pub open spec fn faucet_prefix(asset: Seq<u64>) -> u64 {
    asset[3]
}

/// Returns the note tag of a swap note offering `offered_asset` for `requested_asset`
/// (see `swap_tag`).
pub fn build_swap_tag(note_type: NoteKind, offered_asset: &[u64; 4], requested_asset: &[u64; 4]) -> (tag: u32)
    ensures
        tag == swap_tag(note_type, faucet_prefix(offered_asset@), faucet_prefix(requested_asset@)),
        (tag >> 8u32) & 0xffu32 == (offered_asset[3] >> 56u64) as u32,
        tag & 0xffu32 == (requested_asset[3] >> 56u64) as u32,
        (tag >> 16u32) & 0x3fffu32 == 0,
        note_type == NoteKind::Public ==> tag >> 30u32 == 2,
        note_type != NoteKind::Public ==> tag >> 30u32 == 3,
{
    let payload = (((offered_asset[3] >> 56u64) << 8u64) | (requested_asset[3] >> 56u64)) as u32;
    let tag = match note_type {
        NoteKind::Public => 0x8000_0000u32 | payload,
        _ => 0xc000_0000u32 | payload,
    };
    proof {
        lemma_swap_tag_carries_both_faucets(note_type, offered_asset[3], requested_asset[3]);
    }
    tag
}

/// A swap tag carries the whole top byte of both faucet id prefixes: bits 8 to 15 are the
/// offered faucet's top byte and bits 0 to 7 the requested one's; its use case (bits 16 to
/// 29) is 0; its two high bits are `0b10` for a public note and `0b11` otherwise.
pub proof fn lemma_swap_tag_carries_both_faucets(note_type: NoteKind, offered_prefix: u64, requested_prefix: u64)
    ensures
        (swap_tag(note_type, offered_prefix, requested_prefix) >> 8u32) & 0xffu32 == (offered_prefix >> 56u64) as u32,
        swap_tag(note_type, offered_prefix, requested_prefix) & 0xffu32 == (requested_prefix >> 56u64) as u32,
        (swap_tag(note_type, offered_prefix, requested_prefix) >> 16u32) & 0x3fffu32 == 0,
        note_type == NoteKind::Public ==> swap_tag(note_type, offered_prefix, requested_prefix) >> 30u32 == 2,
        note_type != NoteKind::Public ==> swap_tag(note_type, offered_prefix, requested_prefix) >> 30u32 == 3,
{
    let t = swap_tag(note_type, offered_prefix, requested_prefix);
    let o = offered_prefix;
    let r = requested_prefix;
    if note_type == NoteKind::Public {
        assert(((0x8000_0000u32 | ((((o >> 56u64) << 8u64) | (r >> 56u64)) as u32)) >> 8u32) & 0xffu32 == (o >> 56u64) as u32) by (bit_vector);
        assert((0x8000_0000u32 | ((((o >> 56u64) << 8u64) | (r >> 56u64)) as u32)) & 0xffu32 == (r >> 56u64) as u32) by (bit_vector);
        assert(((0x8000_0000u32 | ((((o >> 56u64) << 8u64) | (r >> 56u64)) as u32)) >> 16u32) & 0x3fffu32 == 0) by (bit_vector);
        assert((0x8000_0000u32 | ((((o >> 56u64) << 8u64) | (r >> 56u64)) as u32)) >> 30u32 == 2) by (bit_vector);
    } else {
        assert(((0xc000_0000u32 | ((((o >> 56u64) << 8u64) | (r >> 56u64)) as u32)) >> 8u32) & 0xffu32 == (o >> 56u64) as u32) by (bit_vector);
        assert((0xc000_0000u32 | ((((o >> 56u64) << 8u64) | (r >> 56u64)) as u32)) & 0xffu32 == (r >> 56u64) as u32) by (bit_vector);
        assert(((0xc000_0000u32 | ((((o >> 56u64) << 8u64) | (r >> 56u64)) as u32)) >> 16u32) & 0x3fffu32 == 0) by (bit_vector);
        assert((0xc000_0000u32 | ((((o >> 56u64) << 8u64) | (r >> 56u64)) as u32)) >> 30u32 == 3) by (bit_vector);
    }
}

/// Returns the note tag that targets `account` with local execution (see
/// `local_account_tag`).
pub fn account_tag(account: AccountIdParts) -> (tag: u32)
    ensures
        tag == local_account_tag(account.prefix),
        (tag >> 16u32) & 0x3fffu32 == (account.prefix >> 50u64) as u32,
        tag & 0xffffu32 == 0,
        tag >> 30u32 == 3,
{
    let tag = (((account.prefix >> 34u64) as u32) & 0xffff_0000u32) | 0xc000_0000u32;
    proof {
        lemma_account_tag_carries_prefix(account.prefix);
    }
    tag
}

/// A local account tag carries all 14 top bits of the account id prefix: bits 16 to 29 of
/// the tag are bits 50 to 63 of the prefix, its low 16 bits are zero and its two high bits
/// are `0b11`.
pub proof fn lemma_account_tag_carries_prefix(prefix: u64)
    ensures
        (local_account_tag(prefix) >> 16u32) & 0x3fffu32 == (prefix >> 50u64) as u32,
        local_account_tag(prefix) & 0xffffu32 == 0,
        local_account_tag(prefix) >> 30u32 == 3,
{
    let p = prefix;
    assert((((((p >> 34u64) as u32) & 0xffff_0000u32) | 0xc000_0000u32) >> 16u32) & 0x3fffu32 == (p >> 50u64) as u32) by (bit_vector);
    assert(((((p >> 34u64) as u32) & 0xffff_0000u32) | 0xc000_0000u32) & 0xffffu32 == 0) by (bit_vector);
    assert(((((p >> 34u64) as u32) & 0xffff_0000u32) | 0xc000_0000u32) >> 30u32 == 3) by (bit_vector);
}

/// The inputs of a partially fillable swap note: the requested asset's word, the note's
/// own swap tag, the tag for paying the creator back, two zeros, the swap count, three
/// zeros, then the creator's id prefix and suffix.
pub open spec fn partial_swap_inputs(
    requested: Seq<u64>,
    swapp_tag: u32,
    p2id_tag: u32,
    swap_count: u64,
    creator: AccountIdParts,
) -> Seq<u64> {
    seq![
        requested[0], requested[1], requested[2], requested[3],
        swapp_tag as u64, p2id_tag as u64, 0u64, 0u64,
        felt_of(swap_count), 0u64, 0u64, 0u64,
        creator.prefix, creator.suffix,
    ]
}

/// What every partially fillable swap note of kind `note_type` is: sent by
/// `last_consumer`, tagged as a swap of the two assets, no aux value, carrying the offered
/// asset, with the given serial number.
pub open spec fn is_swap_note(
    draft: NoteDraft,
    note_type: NoteKind,
    last_consumer: AccountIdParts,
    offered_asset: Seq<u64>,
    requested_asset: Seq<u64>,
    swap_serial_num: Seq<u64>,
) -> bool {
    &&& draft.sender == last_consumer
    &&& draft.note_type == note_type
    &&& draft.tag == swap_tag(note_type, faucet_prefix(offered_asset), faucet_prefix(requested_asset))
    &&& draft.execution_hint == ExecutionHint::Always
    &&& draft.aux == 0
    &&& draft.assets@.len() == 1
    &&& draft.assets@[0]@ == offered_asset
    &&& draft.serial_num@ == swap_serial_num
}

fn push_word(values: &mut Vec<u64>, word: &[u64; 4])
    ensures
        final(values)@ == old(values)@ + word@,
{
    values.push(word[0]);
    values.push(word[1]);
    values.push(word[2]);
    values.push(word[3]);
    assert(final(values)@ =~= old(values)@ + word@);
}

/// Builds the draft of a partially fillable swap note of kind `note_type`.
fn swap_note_draft(
    note_type: NoteKind,
    creator: AccountIdParts,
    last_consumer: AccountIdParts,
    offered_asset: [u64; 4],
    requested_asset: [u64; 4],
    swap_serial_num: [u64; 4],
    swap_count: u64,
) -> (draft: NoteDraft)
    ensures
        is_swap_note(draft, note_type, last_consumer, offered_asset@, requested_asset@, swap_serial_num@),
        draft.inputs@ == partial_swap_inputs(
            requested_asset@,
            swap_tag(note_type, faucet_prefix(offered_asset@), faucet_prefix(requested_asset@)),
            local_account_tag(creator.prefix),
            swap_count,
            creator,
        ),
        draft.inputs@.len() == 14,
        draft.inputs@.subrange(0, 4) == requested_asset@,
        draft.inputs@[4] == draft.tag as u64,
        draft.inputs@[5] == local_account_tag(creator.prefix) as u64,
        (draft.inputs@[5] >> 16u64) & 0x3fffu64 == creator.prefix >> 50u64,
        draft.inputs@[5] & 0xffffu64 == 0 && draft.inputs@[5] >> 30u64 == 3,
        draft.inputs@[8] == felt_of(swap_count),
        draft.inputs@[12] == creator.prefix,
        draft.inputs@[13] == creator.suffix,
        (parts_are_felts(creator) && parts_are_felts(last_consumer) && all_felts(offered_asset@)
            && all_felts(requested_asset@) && all_felts(swap_serial_num@)) ==> draft.well_formed(),
{
    let swapp_tag = build_swap_tag(note_type, &offered_asset, &requested_asset);
    let p2id_tag = account_tag(creator);
    let mut inputs: Vec<u64> = Vec::new();
    push_word(&mut inputs, &requested_asset);
    inputs.push(swapp_tag as u64);
    inputs.push(p2id_tag as u64);
    inputs.push(0);
    inputs.push(0);
    inputs.push(reduce(swap_count));
    inputs.push(0);
    inputs.push(0);
    inputs.push(0);
    inputs.push(creator.prefix);
    inputs.push(creator.suffix);
    let mut assets: Vec<[u64; 4]> = Vec::new();
    assets.push(offered_asset);
    let draft = NoteDraft {
        sender: last_consumer,
        note_type,
        tag: swapp_tag,
        execution_hint: ExecutionHint::Always,
        aux: 0,
        assets,
        serial_num: swap_serial_num,
        inputs,
    };
    assert(draft.inputs@ =~= partial_swap_inputs(
        requested_asset@,
        swapp_tag,
        p2id_tag,
        swap_count,
        creator,
    ));
    proof {
        lemma_swap_inputs_layout(requested_asset@, swapp_tag, p2id_tag, swap_count, creator);
        lemma_tag_bits_as_u64(p2id_tag, creator.prefix);
    }
    draft
}

/// The bits of a local account tag read the same once the tag is widened to 64 bits.
proof fn lemma_tag_bits_as_u64(tag: u32, prefix: u64)
    requires
        (tag >> 16u32) & 0x3fffu32 == (prefix >> 50u64) as u32,
        tag & 0xffffu32 == 0,
        tag >> 30u32 == 3,
    ensures
        ((tag as u64) >> 16u64) & 0x3fffu64 == prefix >> 50u64,
        (tag as u64) & 0xffffu64 == 0,
        (tag as u64) >> 30u64 == 3,
{
    assert(((tag as u64) >> 16u64) & 0x3fffu64 == prefix >> 50u64) by (bit_vector)
        requires (tag >> 16u32) & 0x3fffu32 == (prefix >> 50u64) as u32;
    assert((tag as u64) & 0xffffu64 == 0) by (bit_vector)
        requires tag & 0xffffu32 == 0;
    assert((tag as u64) >> 30u64 == 3) by (bit_vector)
        requires tag >> 30u32 == 3;
}

/// The inputs of a partially fillable swap note are fourteen values: the requested asset's
/// four elements, the swap tag, the creator's tag, two zeros, the swap count as a field
/// element, three zeros, and the creator's id prefix and suffix unchanged.
pub proof fn lemma_swap_inputs_layout(
    requested: Seq<u64>,
    swapp_tag: u32,
    p2id_tag: u32,
    swap_count: u64,
    creator: AccountIdParts,
)
    requires
        requested.len() == 4,
    ensures
        partial_swap_inputs(requested, swapp_tag, p2id_tag, swap_count, creator).len() == 14,
        partial_swap_inputs(requested, swapp_tag, p2id_tag, swap_count, creator).subrange(0, 4) == requested,
        partial_swap_inputs(requested, swapp_tag, p2id_tag, swap_count, creator)[4] == swapp_tag as u64,
        partial_swap_inputs(requested, swapp_tag, p2id_tag, swap_count, creator)[5] == p2id_tag as u64,
        partial_swap_inputs(requested, swapp_tag, p2id_tag, swap_count, creator)[6] == 0,
        partial_swap_inputs(requested, swapp_tag, p2id_tag, swap_count, creator)[7] == 0,
        partial_swap_inputs(requested, swapp_tag, p2id_tag, swap_count, creator)[8] == felt_of(swap_count),
        partial_swap_inputs(requested, swapp_tag, p2id_tag, swap_count, creator)[9] == 0,
        partial_swap_inputs(requested, swapp_tag, p2id_tag, swap_count, creator)[10] == 0,
        partial_swap_inputs(requested, swapp_tag, p2id_tag, swap_count, creator)[11] == 0,
        partial_swap_inputs(requested, swapp_tag, p2id_tag, swap_count, creator)[12] == creator.prefix,
        partial_swap_inputs(requested, swapp_tag, p2id_tag, swap_count, creator)[13] == creator.suffix,
{
    let inputs = partial_swap_inputs(requested, swapp_tag, p2id_tag, swap_count, creator);
    assert(inputs.subrange(0, 4) =~= requested);
}

/// Describes a public partially fillable swap note (SWAPP) that `creator` made and
/// `last_consumer` sends on: it offers `offered_asset` for `requested_asset`, and
/// `swap_count` counts the fills so far.
pub fn create_partial_swap_note(
    creator: AccountIdParts,
    last_consumer: AccountIdParts,
    offered_asset: [u64; 4],
    requested_asset: [u64; 4],
    swap_serial_num: [u64; 4],
    swap_count: u64,
) -> (draft: NoteDraft)
    ensures
        is_swap_note(draft, NoteKind::Public, last_consumer, offered_asset@, requested_asset@, swap_serial_num@),
        draft.inputs@ == partial_swap_inputs(
            requested_asset@,
            draft.tag,
            local_account_tag(creator.prefix),
            swap_count,
            creator,
        ),
        draft.inputs@.len() == 14,
        draft.inputs@.subrange(0, 4) == requested_asset@,
        draft.inputs@[4] == draft.tag as u64,
        draft.inputs@[5] == local_account_tag(creator.prefix) as u64,
        (draft.inputs@[5] >> 16u64) & 0x3fffu64 == creator.prefix >> 50u64,
        draft.inputs@[5] & 0xffffu64 == 0 && draft.inputs@[5] >> 30u64 == 3,
        draft.inputs@[8] == felt_of(swap_count),
        draft.inputs@[12] == creator.prefix,
        draft.inputs@[13] == creator.suffix,
        (parts_are_felts(creator) && parts_are_felts(last_consumer) && all_felts(offered_asset@)
            && all_felts(requested_asset@) && all_felts(swap_serial_num@)) ==> draft.well_formed(),
{
    swap_note_draft(
        NoteKind::Public,
        creator,
        last_consumer,
        offered_asset,
        requested_asset,
        swap_serial_num,
        swap_count,
    )
}

/// Describes the private variant of the partially fillable swap note: the same as
/// `create_partial_swap_note`, of kind private (and so with a local use-case tag).
pub fn create_partial_swap_private_note(
    creator: AccountIdParts,
    last_consumer: AccountIdParts,
    offered_asset: [u64; 4],
    requested_asset: [u64; 4],
    swap_serial_num: [u64; 4],
    swap_count: u64,
) -> (draft: NoteDraft)
    ensures
        is_swap_note(draft, NoteKind::Private, last_consumer, offered_asset@, requested_asset@, swap_serial_num@),
        draft.inputs@ == partial_swap_inputs(
            requested_asset@,
            draft.tag,
            local_account_tag(creator.prefix),
            swap_count,
            creator,
        ),
        draft.inputs@.len() == 14,
        draft.inputs@.subrange(0, 4) == requested_asset@,
        draft.inputs@[4] == draft.tag as u64,
        draft.inputs@[5] == local_account_tag(creator.prefix) as u64,
        (draft.inputs@[5] >> 16u64) & 0x3fffu64 == creator.prefix >> 50u64,
        draft.inputs@[5] & 0xffffu64 == 0 && draft.inputs@[5] >> 30u64 == 3,
        draft.inputs@[8] == felt_of(swap_count),
        draft.inputs@[12] == creator.prefix,
        draft.inputs@[13] == creator.suffix,
        (parts_are_felts(creator) && parts_are_felts(last_consumer) && all_felts(offered_asset@)
            && all_felts(requested_asset@) && all_felts(swap_serial_num@)) ==> draft.well_formed(),
{
    swap_note_draft(
        NoteKind::Private,
        creator,
        last_consumer,
        offered_asset,
        requested_asset,
        swap_serial_num,
        swap_count,
    )
}

/// Describes the cancellable variant of the public partially fillable swap note: its inputs
/// are those of `create_partial_swap_note` followed by two zeros and the four elements of
/// `secret_hash`, the hash of the secret that cancels the order.
pub fn create_partial_swap_note_cancellable(
    creator: AccountIdParts,
    last_consumer: AccountIdParts,
    offered_asset: [u64; 4],
    requested_asset: [u64; 4],
    secret_hash: [u64; 4],
    swap_serial_num: [u64; 4],
    swap_count: u64,
) -> (draft: NoteDraft)
    ensures
        is_swap_note(draft, NoteKind::Public, last_consumer, offered_asset@, requested_asset@, swap_serial_num@),
        draft.inputs@ == partial_swap_inputs(
            requested_asset@,
            draft.tag,
            local_account_tag(creator.prefix),
            swap_count,
            creator,
        ) + seq![0u64, 0u64] + secret_hash@,
        draft.inputs@.len() == 20,
        draft.inputs@.subrange(0, 4) == requested_asset@,
        draft.inputs@[4] == draft.tag as u64,
        draft.inputs@[5] == local_account_tag(creator.prefix) as u64,
        (draft.inputs@[5] >> 16u64) & 0x3fffu64 == creator.prefix >> 50u64,
        draft.inputs@[5] & 0xffffu64 == 0 && draft.inputs@[5] >> 30u64 == 3,
        draft.inputs@[8] == felt_of(swap_count),
        draft.inputs@[12] == creator.prefix,
        draft.inputs@[13] == creator.suffix,
        draft.inputs@[14] == 0 && draft.inputs@[15] == 0,
        draft.inputs@.subrange(16, 20) == secret_hash@,
        (parts_are_felts(creator) && parts_are_felts(last_consumer) && all_felts(offered_asset@)
            && all_felts(requested_asset@) && all_felts(secret_hash@) && all_felts(swap_serial_num@))
            ==> draft.well_formed(),
{
    let mut draft = swap_note_draft(
        NoteKind::Public,
        creator,
        last_consumer,
        offered_asset,
        requested_asset,
        swap_serial_num,
        swap_count,
    );
    let ghost base = draft.inputs@;
    draft.inputs.push(0);
    draft.inputs.push(0);
    push_word(&mut draft.inputs, &secret_hash);
    assert(draft.inputs@ =~= base + seq![0u64, 0u64] + secret_hash@);
    draft
}

/// Describes a pay-to-id (P2ID) note from `sender` that only `target` can consume: its
/// inputs are the target's id suffix and prefix, and its tag targets that account.
pub fn create_p2id_note(
    sender: AccountIdParts,
    target: AccountIdParts,
    assets: Vec<[u64; 4]>,
    note_type: NoteKind,
    aux: u64,
    serial_num: [u64; 4],
) -> (draft: NoteDraft)
    ensures
        draft.sender == sender,
        draft.note_type == note_type,
        draft.tag == local_account_tag(target.prefix),
        (draft.tag >> 16u32) & 0x3fffu32 == (target.prefix >> 50u64) as u32,
        draft.tag & 0xffffu32 == 0 && draft.tag >> 30u32 == 3,
        draft.execution_hint == ExecutionHint::Always,
        draft.aux == aux,
        draft.assets@ == assets@,
        draft.serial_num == serial_num,
        draft.inputs@ == seq![target.suffix, target.prefix],
        (parts_are_felts(sender) && parts_are_felts(target) && is_felt(aux) && all_felts(serial_num@)
            && forall|k: int| 0 <= k < assets.len() ==> all_felts((#[trigger] assets[k])@))
            ==> draft.well_formed(),
{
    let tag = account_tag(target);
    let mut inputs: Vec<u64> = Vec::new();
    inputs.push(target.suffix);
    inputs.push(target.prefix);
    assert(inputs@ =~= seq![target.suffix, target.prefix]);
    NoteDraft { sender, note_type, tag, execution_hint: ExecutionHint::Always, aux, assets, serial_num, inputs }
}

/// The inputs of an option contract note: the payback note's recipient digest, the
/// requested asset's word, the tag that pays the underwriter back, the "always" execution
/// hint (encoded as 1), the underwriter's id prefix and suffix, the buyer's id prefix and
/// suffix, the expiration and whether the option is European (1) or not (0).
pub open spec fn option_contract_inputs(
    payback_recipient: Seq<u64>,
    requested: Seq<u64>,
    underwriter: AccountIdParts,
    buyer: AccountIdParts,
    expiration: u64,
    is_european: bool,
) -> Seq<u64> {
    payback_recipient + requested + seq![
        local_account_tag(underwriter.prefix) as u64, 1u64,
        underwriter.prefix, underwriter.suffix,
        buyer.prefix, buyer.suffix,
        felt_of(expiration), if is_european { 1u64 } else { 0u64 },
    ]
}

/// The inputs of an option contract note are sixteen values: the payback recipient digest,
/// the requested asset, the underwriter's tag, the hint 1, the underwriter's id prefix and
/// suffix and the buyer's id prefix and suffix unchanged, the expiration as a field element
/// and 1 for a European option, 0 otherwise.
pub proof fn lemma_option_inputs_layout(
    payback_recipient: Seq<u64>,
    requested: Seq<u64>,
    underwriter: AccountIdParts,
    buyer: AccountIdParts,
    expiration: u64,
    is_european: bool,
)
    requires
        payback_recipient.len() == 4,
        requested.len() == 4,
    ensures
        option_contract_inputs(payback_recipient, requested, underwriter, buyer, expiration, is_european).len() == 16,
        option_contract_inputs(payback_recipient, requested, underwriter, buyer, expiration, is_european).subrange(0, 4) == payback_recipient,
        option_contract_inputs(payback_recipient, requested, underwriter, buyer, expiration, is_european).subrange(4, 8) == requested,
        option_contract_inputs(payback_recipient, requested, underwriter, buyer, expiration, is_european)[8] == local_account_tag(underwriter.prefix) as u64,
        option_contract_inputs(payback_recipient, requested, underwriter, buyer, expiration, is_european)[9] == 1,
        option_contract_inputs(payback_recipient, requested, underwriter, buyer, expiration, is_european)[10] == underwriter.prefix,
        option_contract_inputs(payback_recipient, requested, underwriter, buyer, expiration, is_european)[11] == underwriter.suffix,
        option_contract_inputs(payback_recipient, requested, underwriter, buyer, expiration, is_european)[12] == buyer.prefix,
        option_contract_inputs(payback_recipient, requested, underwriter, buyer, expiration, is_european)[13] == buyer.suffix,
        option_contract_inputs(payback_recipient, requested, underwriter, buyer, expiration, is_european)[14] == felt_of(expiration),
        option_contract_inputs(payback_recipient, requested, underwriter, buyer, expiration, is_european)[15] == (if is_european { 1u64 } else { 0u64 }),
{
    let inputs = option_contract_inputs(payback_recipient, requested, underwriter, buyer, expiration, is_european);
    assert(inputs.subrange(0, 4) =~= payback_recipient);
    assert(inputs.subrange(4, 8) =~= requested);
}

/// Describes the option contract note that `underwriter` writes for `buyer`: it carries
/// `offered_asset`, asks `requested_asset` in return, and pays it back to the underwriter
/// through the P2ID note whose recipient digest is `payback_recipient`.
pub fn option_contract_draft(
    underwriter: AccountIdParts,
    buyer: AccountIdParts,
    offered_asset: [u64; 4],
    requested_asset: [u64; 4],
    expiration: u64,
    is_european: bool,
    aux: u64,
    payback_recipient: [u64; 4],
    serial_num: [u64; 4],
) -> (draft: NoteDraft)
    ensures
        draft.sender == underwriter,
        draft.note_type == NoteKind::Public,
        draft.tag == swap_tag(NoteKind::Public, faucet_prefix(offered_asset@), faucet_prefix(requested_asset@)),
        draft.execution_hint == ExecutionHint::Always,
        draft.aux == aux,
        draft.assets@.len() == 1,
        draft.assets@[0] == offered_asset,
        draft.serial_num == serial_num,
        draft.inputs@ == option_contract_inputs(
            payback_recipient@,
            requested_asset@,
            underwriter,
            buyer,
            expiration,
            is_european,
        ),
        draft.inputs@.len() == 16,
        draft.inputs@.subrange(0, 4) == payback_recipient@,
        draft.inputs@.subrange(4, 8) == requested_asset@,
        draft.inputs@[8] == local_account_tag(underwriter.prefix) as u64,
        (draft.inputs@[8] >> 16u64) & 0x3fffu64 == underwriter.prefix >> 50u64,
        draft.inputs@[8] & 0xffffu64 == 0 && draft.inputs@[8] >> 30u64 == 3,
        draft.inputs@[9] == 1,
        draft.inputs@[10] == underwriter.prefix,
        draft.inputs@[11] == underwriter.suffix,
        draft.inputs@[12] == buyer.prefix,
        draft.inputs@[13] == buyer.suffix,
        draft.inputs@[14] == felt_of(expiration),
        draft.inputs@[15] == (if is_european { 1u64 } else { 0u64 }),
        (parts_are_felts(underwriter) && parts_are_felts(buyer) && all_felts(offered_asset@)
            && all_felts(requested_asset@) && is_felt(aux) && all_felts(payback_recipient@)
            && all_felts(serial_num@)) ==> draft.well_formed(),
{
    let payback_tag = account_tag(underwriter);
    let mut inputs: Vec<u64> = Vec::new();
    push_word(&mut inputs, &payback_recipient);
    push_word(&mut inputs, &requested_asset);
    inputs.push(payback_tag as u64);
    inputs.push(1);
    inputs.push(underwriter.prefix);
    inputs.push(underwriter.suffix);
    inputs.push(buyer.prefix);
    inputs.push(buyer.suffix);
    inputs.push(reduce(expiration));
    inputs.push(if is_european { 1 } else { 0 });
    let tag = build_swap_tag(NoteKind::Public, &offered_asset, &requested_asset);
    let mut assets: Vec<[u64; 4]> = Vec::new();
    assets.push(offered_asset);
    assert(inputs@ =~= option_contract_inputs(
        payback_recipient@,
        requested_asset@,
        underwriter,
        buyer,
        expiration,
        is_european,
    ));
    proof {
        lemma_option_inputs_layout(payback_recipient@, requested_asset@, underwriter, buyer, expiration, is_european);
        lemma_tag_bits_as_u64(payback_tag, underwriter.prefix);
    }
    NoteDraft {
        sender: underwriter,
        note_type: NoteKind::Public,
        tag,
        execution_hint: ExecutionHint::Always,
        aux,
        assets,
        serial_num,
        inputs,
    }
}

/// The serial number of the P2ID note that pays the creator of a swap note on its
/// `swap_count`-th fill: the RPO merge of the swap note's serial number with the word
/// `[swap_count, 0, 0, 0]`.
pub open spec fn p2id_serial_num(swap_serial_num: Seq<u64>, swap_count: u64) -> Seq<u64> {
    rpo256_merge(swap_serial_num, seq![felt_of(swap_count), 0u64, 0u64, 0u64])
}

/// The P2ID serial number of a fill is the RPO merge of the swap note's serial number itself
/// (unchanged) with the word whose first element is the swap count as a field element and
/// whose other three are zero.
pub proof fn lemma_p2id_serial_num_is_merge(swap_serial_num: Seq<u64>, swap_count: u64)
    ensures
        p2id_serial_num(swap_serial_num, swap_count) == rpo256_merge(swap_serial_num, seq![felt_of(swap_count), 0u64, 0u64, 0u64]),
{
}

/// Returns the serial number of the P2ID note that pays the creator of a swap note on its
/// `swap_count`-th fill.
pub fn get_p2id_serial_num(swap_serial_num: [u64; 4], swap_count: u64) -> (serial_num: [u64; 4])
    requires
        all_felts(swap_serial_num@),
    ensures
        serial_num@ == p2id_serial_num(swap_serial_num@, swap_count),
        serial_num@ == rpo256_merge(swap_serial_num@, seq![felt_of(swap_count), 0u64, 0u64, 0u64]),
        all_felts(serial_num@),
{
    let swap_count_word: [u64; 4] = [reduce(swap_count), 0, 0, 0];
    assert(all_felts(swap_count_word@)) by {
        assert forall|m: int| 0 <= m < 4 implies crate::field::is_felt(#[trigger] swap_count_word@[m]) by {}
    }
    assert(swap_count_word@ =~= seq![felt_of(swap_count), 0u64, 0u64, 0u64]);
    merge(&swap_serial_num, &swap_count_word)
}

} // verus!
