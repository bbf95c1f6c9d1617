//! Turning a note draft into a Miden note with `miden-objects`: the draft's plain values
//! become an account id, assets, inputs and metadata, and the note script is compiled from
//! its source with the transaction kernel's assembler.
use vstd::prelude::*;
use miden_crypto::Felt;
use miden_lib::transaction::TransactionKernel;
use miden_objects::account::AccountId;
use miden_objects::asset::Asset;
use miden_objects::note::{
    Note, NoteAssets, NoteExecutionHint, NoteInputs, NoteMetadata, NoteRecipient, NoteScript,
    NoteTag, NoteType,
};
use miden_objects::{AccountIdError, AssetError, NoteError};
use crate::field::{all_felts, is_felt};
use crate::notes::{
    AccountIdParts, ExecutionHint, NoteDraft, NoteKind, option_contract_draft, create_p2id_note,
    faucet_prefix, local_account_tag, option_contract_inputs, parts_are_felts, swap_tag,
};

verus! {

#[verifier::external_type_specification]
#[verifier::external_body]
pub struct ExNote(Note);

#[verifier::external_type_specification]
#[verifier::external_body]
pub struct ExNoteScript(NoteScript);

#[verifier::external_type_specification]
#[verifier::external_body]
pub struct ExNoteInputs(NoteInputs);

#[verifier::external_type_specification]
#[verifier::external_body]
pub struct ExNoteMetadata(NoteMetadata);

#[verifier::external_type_specification]
#[verifier::external_body]
pub struct ExNoteAssets(NoteAssets);

#[verifier::external_type_specification]
#[verifier::external_body]
pub struct ExNoteRecipient(NoteRecipient);

#[verifier::external_type_specification]
#[verifier::external_body]
pub struct ExAccountId(AccountId);

#[verifier::external_type_specification]
#[verifier::external_body]
pub struct ExAsset(Asset);

#[verifier::external_type_specification]
#[verifier::external_body]
pub struct ExNoteError(NoteError);

#[verifier::external_type_specification]
#[verifier::external_body]
pub struct ExAccountIdError(AccountIdError);

#[verifier::external_type_specification]
#[verifier::external_body]
pub struct ExAssetError(AssetError);

/// The most inputs a note may have (`MAX_INPUTS_PER_NOTE` of `miden-objects`).
pub const MAX_INPUTS_PER_NOTE: usize = 128;

/// Why a draft could not be made into a note.
pub enum NoteBuildError {
    /// The note script's source did not compile.
    Script(NoteError),
    /// The sender is not a valid account id.
    Sender(AccountIdError),
    /// An asset word's last element is not a valid account id prefix (so it names no faucet).
    AssetPrefix,
    /// An asset word is not a valid asset.
    Asset(AssetError),
    /// `miden-objects` refused the note's inputs, metadata or assets.
    Note(NoteError),
}

// NAMES FOR WHAT THE OUTSIDE CALLS DECIDE AND WHAT THEIR RESULTS HOLD
// ================================================================================================

/// Whether `AccountId::try_from([prefix, suffix])` of `miden-objects` accepts these two
/// field elements as an account id.
pub uninterp spec fn is_account_id(prefix: u64, suffix: u64) -> bool;

/// Whether `Asset::try_from(word)` of `miden-objects` accepts this word as an asset (for
/// words whose last element is a valid account id prefix).
pub uninterp spec fn is_asset_word(word: Seq<u64>) -> bool;

/// Whether `NoteScript::compile` of `miden-objects`, with the transaction kernel's
/// assembler in debug mode, compiles this source.
pub uninterp spec fn compiles_as_note_script(source: Seq<char>) -> bool;

/// The two elements (prefix, suffix) an account id holds, as canonical values.
pub uninterp spec fn account_id_values(id: AccountId) -> Seq<u64>;

/// The word an asset is held as, as canonical values.
pub uninterp spec fn asset_word(asset: Asset) -> Seq<u64>;

/// The values that note inputs hold, as canonical values, in order.
pub uninterp spec fn note_inputs_values(inputs: NoteInputs) -> Seq<u64>;

/// The words of the assets that a note's asset list holds, in order.
pub uninterp spec fn note_assets_words(assets: NoteAssets) -> Seq<Seq<u64>>;

/// What note metadata holds: the sender's two elements, then the note type's code, the tag,
/// the execution hint's encoding and the aux value (see `metadata_values`).
pub uninterp spec fn note_metadata_values(metadata: NoteMetadata) -> Seq<u64>;

/// The MAST root of a compiled note script, as canonical values.
pub uninterp spec fn script_root(script: NoteScript) -> Seq<u64>;

/// The MAST root of the script that `NoteScript::compile` (with the transaction kernel's
/// assembler in debug mode) makes of this source.
pub uninterp spec fn compiled_script_root(source: Seq<char>) -> Seq<u64>;

/// What a note recipient holds: its serial number, its script's root and its input values.
pub uninterp spec fn recipient_values(recipient: NoteRecipient) -> (Seq<u64>, Seq<u64>, Seq<u64>);

/// What a note holds: its serial number, its script's root, its input values, its asset
/// words and its metadata values.
pub uninterp spec fn note_values(note: Note) -> (Seq<u64>, Seq<u64>, Seq<u64>, Seq<Seq<u64>>, Seq<u64>);

/// The recipient digest of a note (the hash of its serial number, script root and inputs
/// commitment), as canonical values.
pub uninterp spec fn note_recipient_digest(note: Note) -> Seq<u64>;

// PLAIN-VALUE STATEMENTS
// ================================================================================================

/// Whether `AccountIdPrefix::try_from` of `miden-objects` accepts this element as an
/// account id prefix: version 0 in the low nibble, and storage-mode bits (6 and 7) public
/// (`0b00`) or private (`0b10`).
pub open spec fn is_account_id_prefix(prefix: u64) -> bool {
    prefix & 0xfu64 == 0 && ((prefix >> 6u64) & 3u64 == 0 || (prefix >> 6u64) & 3u64 == 2)
}

/// A word is a valid asset: its last element is an account id prefix and `Asset::try_from`
/// accepts it.
pub open spec fn is_valid_asset_word(word: Seq<u64>) -> bool {
    is_account_id_prefix(word[3]) && is_asset_word(word)
}

/// Whether `NoteTag::validate` of `miden-objects` accepts `tag` for a note of this kind: a
/// public note takes any tag; any other note needs a tag for local execution that is not
/// a public use case, that is with both high bits set.
pub open spec fn tag_accepts(note_type: NoteKind, tag: u32) -> bool {
    note_type == NoteKind::Public || tag & 0xc000_0000u32 == 0xc000_0000u32
}

/// Whether `miden-objects` makes this execution hint: every hint but "after block
/// `u32::MAX`".
pub open spec fn hint_accepted(hint: ExecutionHint) -> bool {
    !(hint matches ExecutionHint::AfterBlock(b) && b == u32::MAX)
}

/// The code of a note type (`NoteType as u8` of `miden-objects`).
pub open spec fn kind_code(note_type: NoteKind) -> u64 {
    match note_type {
        NoteKind::Public => 1,
        NoteKind::Private => 2,
        NoteKind::Encrypted => 3,
    }
}

/// The `u64` encoding of an execution hint (`From<NoteExecutionHint> for u64` of
/// `miden-objects`): the payload shifted left by 6 bits, over a tag of 0 (none), 1 (always),
/// 2 (after block) or 3 (on block slot).
pub open spec fn hint_code(hint: ExecutionHint) -> u64 {
    match hint {
        ExecutionHint::NoHint => 0,
        ExecutionHint::Always => 1,
        ExecutionHint::AfterBlock(b) => (b * 64 + 2) as u64,
        ExecutionHint::OnBlockSlot(r, s, o) => ((r * 65536 + s * 256 + o) * 64 + 3) as u64,
    }
}

/// The metadata values of a note: the sender's two elements, then the note type's code, the
/// tag, the execution hint's encoding and the aux value.
pub open spec fn metadata_values(
    sender: Seq<u64>,
    note_type: NoteKind,
    tag: u32,
    hint: ExecutionHint,
    aux: u64,
) -> Seq<u64> {
    sender + seq![kind_code(note_type), tag as u64, hint_code(hint), aux]
}

/// The most assets a note may carry (`MAX_ASSETS_PER_NOTE` of `miden-objects`).
pub const MAX_ASSETS_PER_NOTE: usize = 255;

/// Whether an asset word holds a fungible asset: its faucet prefix (last element) has the
/// fungible-faucet type bits (`0b10` at bits 4 and 5).
pub open spec fn is_fungible_word(word: Seq<u64>) -> bool {
    (word[3] >> 4u64) & 3u64 == 2
}

/// Whether two asset words hold the same asset in the sense of `Asset::is_same`: two
/// fungible assets of one faucet (same faucet id suffix and prefix), or two equal
/// non-fungible assets.
pub open spec fn same_asset(a: Seq<u64>, b: Seq<u64>) -> bool {
    if is_fungible_word(a) && is_fungible_word(b) {
        a[2] == b[2] && a[3] == b[3]
    } else if !is_fungible_word(a) && !is_fungible_word(b) {
        a == b
    } else {
        false
    }
}

/// No two words of the list hold the same asset.
pub open spec fn distinct_assets(words: Seq<Seq<u64>>) -> bool {
    forall|i: int, j: int| 0 <= i < j < words.len() ==> !same_asset(#[trigger] words[i], #[trigger] words[j])
}

/// The words of a list of asset words, as sequences.
pub open spec fn words_of(words: Seq<[u64; 4]>) -> Seq<Seq<u64>> {
    words.map_values(|w: [u64; 4]| w@)
}

/// The words of a list of assets.
pub open spec fn asset_words(assets: Seq<Asset>) -> Seq<Seq<u64>> {
    assets.map_values(|a: Asset| asset_word(a))
}

impl NoteDraft {
    /// Every field element of the draft is held as its canonical value.
    pub open spec fn well_formed(&self) -> bool {
        &&& is_felt(self.sender.prefix)
        &&& is_felt(self.sender.suffix)
        &&& is_felt(self.aux)
        &&& all_felts(self.serial_num@)
        &&& all_felts(self.inputs@)
        &&& forall|i: int| 0 <= i < self.assets.len() ==> all_felts((#[trigger] self.assets[i])@)
    }

    /// Every asset word of the draft is a valid asset.
    pub open spec fn assets_valid(&self) -> bool {
        forall|i: int| 0 <= i < self.assets.len() ==> is_valid_asset_word((#[trigger] self.assets[i])@)
    }

    /// What the note built from this draft, with a script of root `script_root`, holds (see
    /// `note_values`).
    pub open spec fn note_values(&self, script_root: Seq<u64>) -> (Seq<u64>, Seq<u64>, Seq<u64>, Seq<Seq<u64>>, Seq<u64>) {
        (
            self.serial_num@,
            script_root,
            self.inputs@,
            words_of(self.assets@),
            metadata_values(
                seq![self.sender.prefix, self.sender.suffix],
                self.note_type,
                self.tag,
                self.execution_hint,
                self.aux,
            ),
        )
    }
}

// TRUSTED CALLS
// ================================================================================================

/// Calls `AccountId::try_from([Felt; 2])` of `miden-objects`. Trusted: it succeeds exactly
/// on the pairs the named predicate holds of (a function of the two elements alone), and
/// the id holds the two elements it was made from.
#[verifier::external_body]
fn account_id_from_parts(parts: AccountIdParts) -> (result: Result<AccountId, AccountIdError>)
    requires
        is_felt(parts.prefix),
        is_felt(parts.suffix),
    ensures
        result is Ok <==> is_account_id(parts.prefix, parts.suffix),
        result matches Ok(id) ==> account_id_values(id) == seq![parts.prefix, parts.suffix],
{
    AccountId::try_from([Felt::new(parts.prefix), Felt::new(parts.suffix)])
}

/// Calls `Asset::try_from(Word)` of `miden-objects`, on a word whose last element is a valid
/// account id prefix (on others it panics in debug builds). Trusted: it succeeds exactly on
/// the words the named predicate holds of (a function of the word alone), and the asset is
/// held as the word it was made from.
#[verifier::external_body]
fn asset_from_word(word: [u64; 4]) -> (result: Result<Asset, AssetError>)
    requires
        all_felts(word@),
        is_account_id_prefix(word@[3]),
    ensures
        result is Ok <==> is_asset_word(word@),
        result matches Ok(asset) ==> asset_word(asset) == word@,
{
    Asset::try_from([Felt::new(word[0]), Felt::new(word[1]), Felt::new(word[2]), Felt::new(word[3])])
}

/// Calls `NoteInputs::new` of `miden-objects`. Trusted: it fails exactly when there are
/// more than `MAX_INPUTS_PER_NOTE` values (its source checks nothing else), and the inputs
/// hold the values they were made from.
#[verifier::external_body]
fn note_inputs_new(values: &Vec<u64>) -> (result: Result<NoteInputs, NoteError>)
    requires
        all_felts(values@),
    ensures
        result is Ok <==> values.len() <= MAX_INPUTS_PER_NOTE,
        result matches Ok(inputs) ==> note_inputs_values(inputs) == values@,
{
    NoteInputs::new(values.iter().map(|v| Felt::new(*v)).collect())
}

/// Calls `NoteMetadata::new` of `miden-objects`, converting the hint with its constructors.
/// Trusted: it fails exactly when the hint is "after block `u32::MAX`" or `NoteTag::validate`
/// refuses the tag for the note type (see `tag_accepts`), and the metadata holds what it was
/// made from.
#[verifier::external_body]
fn note_metadata_new(sender: AccountId, note_type: NoteKind, tag: u32, hint: ExecutionHint, aux: u64) -> (result: Result<NoteMetadata, NoteError>)
    requires
        is_felt(aux),
    ensures
        (result is Ok) == (hint_accepted(hint) && tag_accepts(note_type, tag)),
        result matches Ok(metadata) ==> (note_metadata_values(metadata) == metadata_values(account_id_values(sender), note_type, tag, hint, aux)),
{
    let hint = match hint {
        ExecutionHint::NoHint => NoteExecutionHint::none(),
        ExecutionHint::Always => NoteExecutionHint::always(),
        ExecutionHint::AfterBlock(b) => NoteExecutionHint::after_block(b.into())?,
        ExecutionHint::OnBlockSlot(r, s, o) => NoteExecutionHint::on_block_slot(r, s, o),
    };
    let note_type = match note_type {
        NoteKind::Public => NoteType::Public,
        NoteKind::Private => NoteType::Private,
        NoteKind::Encrypted => NoteType::Encrypted,
    };
    NoteMetadata::new(sender, note_type, NoteTag::from(tag), hint, Felt::new(aux))
}

/// Calls `NoteAssets::new` of `miden-objects`. Trusted: it succeeds exactly when there are
/// at most 255 assets and no two of them are the same (`Asset::is_same`: fungible assets of
/// one faucet, or equal non-fungible assets; see `distinct_assets`), and the list holds the
/// assets it was made from, in order.
#[verifier::external_body]
fn note_assets_new(assets: Vec<Asset>) -> (result: Result<NoteAssets, NoteError>)
    ensures
        (result is Ok) == (assets.len() <= MAX_ASSETS_PER_NOTE && distinct_assets(asset_words(assets@))),
        result matches Ok(list) ==> note_assets_words(list) == asset_words(assets@),
{
    NoteAssets::new(assets)
}

/// Calls `NoteRecipient::new` of `miden-objects`. Trusted: the recipient holds the serial
/// number, the script (so its root) and the inputs it was made from.
#[verifier::external_body]
fn note_recipient_new(serial_num: [u64; 4], script: NoteScript, inputs: NoteInputs) -> (recipient: NoteRecipient)
    requires
        all_felts(serial_num@),
    ensures
        recipient_values(recipient) == (serial_num@, script_root(script), note_inputs_values(inputs)),
{
    let serial_num = [Felt::new(serial_num[0]), Felt::new(serial_num[1]), Felt::new(serial_num[2]), Felt::new(serial_num[3])];
    NoteRecipient::new(serial_num, script, inputs)
}

/// Calls `Note::new` of `miden-objects`. Trusted: the note holds the recipient's serial
/// number and inputs, the assets and the metadata it was made from.
#[verifier::external_body]
fn note_new(assets: NoteAssets, metadata: NoteMetadata, recipient: NoteRecipient) -> (note: Note)
    ensures
        note_values(note).0 == recipient_values(recipient).0,
        note_values(note).1 == recipient_values(recipient).1,
        note_values(note).2 == recipient_values(recipient).2,
        note_values(note).3 == note_assets_words(assets),
        note_values(note).4 == note_metadata_values(metadata),
{
    Note::new(assets, metadata, recipient)
}

/// Calls `NoteScript::compile` of `miden-objects` with the assembler of `miden-lib`'s
/// transaction kernel, in debug mode. Trusted: it succeeds exactly when the named predicate
/// holds of the source (the kernel assembler is fixed, so the outcome depends on the source
/// alone), and the script's root is the named root of the source.
#[verifier::external_body]
fn compile_note_script(source_code: &str) -> (result: Result<NoteScript, NoteError>)
    ensures
        result is Ok <==> compiles_as_note_script(source_code@),
        result matches Ok(script) ==> script_root(script) == compiled_script_root(source_code@),
{
    NoteScript::compile(source_code, TransactionKernel::assembler().with_debug_mode(true))
}

/// Calls `Note::recipient` and `NoteRecipient::digest` of `miden-objects`. Trusted: the
/// result is the note's named recipient digest, and its four values are canonical.
#[verifier::external_body]
fn recipient_digest(note: &Note) -> (digest: [u64; 4])
    ensures
        digest@ == note_recipient_digest(*note),
        all_felts(digest@),
{
    note.recipient().digest().into()
}

// VERIFIED BUILDING
// ================================================================================================

/// Whether an asset word's last element is a valid account id prefix.
fn has_account_id_prefix(word: &[u64; 4]) -> (valid: bool)
    ensures
        valid == is_account_id_prefix(word@[3]),
{
    let prefix = word[3];
    prefix & 0xf == 0 && ((prefix >> 6u64) & 3 == 0 || (prefix >> 6u64) & 3 == 2)
}

/// Converts the asset words of a draft, stopping at the first invalid one.
fn assets_from_words(words: &Vec<[u64; 4]>) -> (result: Result<Vec<Asset>, NoteBuildError>)
    requires
        forall|i: int| 0 <= i < words.len() ==> all_felts((#[trigger] words[i])@),
    ensures
        result is Ok <==> forall|i: int| 0 <= i < words.len() ==> is_valid_asset_word((#[trigger] words[i])@),
        result matches Ok(assets) ==> asset_words(assets@) == words_of(words@),
        result matches Ok(assets) ==> assets.len() == words.len(),
        result matches Err(e) ==> (e is AssetPrefix || e is Asset),
{
    let mut assets: Vec<Asset> = Vec::new();
    let mut i: usize = 0;
    while i < words.len()
        invariant
            i <= words.len(),
            assets.len() == i,
            forall|j: int| 0 <= j < words.len() ==> all_felts((#[trigger] words[j])@),
            forall|j: int| 0 <= j < i ==> is_valid_asset_word((#[trigger] words[j])@),
            forall|j: int| 0 <= j < i ==> asset_word(#[trigger] assets@[j]) == words@[j]@,
        decreases words.len() - i,
    {
        if !has_account_id_prefix(&words[i]) {
            return Err(NoteBuildError::AssetPrefix);
        }
        match asset_from_word(words[i]) {
            Ok(asset) => assets.push(asset),
            Err(e) => return Err(NoteBuildError::Asset(e)),
        }
        i = i + 1;
    }
    assert(asset_words(assets@) =~= words_of(words@));
    Ok(assets)
}

/// Makes the Miden note that `draft` describes, with the script compiled from
/// `script_source`. Checks in this order: the sender id, the asset words, the inputs
/// (at most `MAX_INPUTS_PER_NOTE`), the hint and the tag for the note type, the assets list,
/// and last the script. The note it gives holds the draft's serial number, inputs, asset
/// words and metadata (sender, type, tag, execution hint and aux).
pub fn build_note(draft: NoteDraft, script_source: &str) -> (result: Result<Note, NoteBuildError>)
    requires
        draft.well_formed(),
    ensures
        result matches Err(NoteBuildError::Sender(_)) <==> !is_account_id(draft.sender.prefix, draft.sender.suffix),
        (result matches Err(NoteBuildError::AssetPrefix) || result matches Err(NoteBuildError::Asset(_)))
            <==> is_account_id(draft.sender.prefix, draft.sender.suffix) && !draft.assets_valid(),
        (is_account_id(draft.sender.prefix, draft.sender.suffix) && draft.assets_valid()
            && (draft.inputs.len() > MAX_INPUTS_PER_NOTE || !hint_accepted(draft.execution_hint)
            || !tag_accepts(draft.note_type, draft.tag))) ==> result matches Err(NoteBuildError::Note(_)),
        result matches Err(NoteBuildError::Note(_)) ==> draft.inputs.len() > MAX_INPUTS_PER_NOTE
            || !hint_accepted(draft.execution_hint) || !tag_accepts(draft.note_type, draft.tag)
            || draft.assets.len() > MAX_ASSETS_PER_NOTE || !distinct_assets(words_of(draft.assets@)),
        result matches Err(NoteBuildError::Script(_)) ==> is_account_id(draft.sender.prefix, draft.sender.suffix)
            && draft.assets_valid() && draft.inputs.len() <= MAX_INPUTS_PER_NOTE
            && hint_accepted(draft.execution_hint) && tag_accepts(draft.note_type, draft.tag)
            && !compiles_as_note_script(script_source@),
        (is_account_id(draft.sender.prefix, draft.sender.suffix) && draft.assets_valid()
            && draft.inputs.len() <= MAX_INPUTS_PER_NOTE && hint_accepted(draft.execution_hint)
            && tag_accepts(draft.note_type, draft.tag) && draft.assets.len() <= MAX_ASSETS_PER_NOTE
            && distinct_assets(words_of(draft.assets@))
            && compiles_as_note_script(script_source@)) ==> result is Ok,
        result matches Ok(note) ==> note_values(note) == draft.note_values(compiled_script_root(script_source@)),
{
    let sender = match account_id_from_parts(draft.sender) {
        Ok(id) => id,
        Err(e) => return Err(NoteBuildError::Sender(e)),
    };
    let assets = match assets_from_words(&draft.assets) {
        Ok(assets) => assets,
        Err(e) => return Err(e),
    };
    let inputs = match note_inputs_new(&draft.inputs) {
        Ok(inputs) => inputs,
        Err(e) => return Err(NoteBuildError::Note(e)),
    };
    let metadata = match note_metadata_new(sender, draft.note_type, draft.tag, draft.execution_hint, draft.aux) {
        Ok(metadata) => metadata,
        Err(e) => return Err(NoteBuildError::Note(e)),
    };
    let asset_list = match note_assets_new(assets) {
        Ok(list) => list,
        Err(e) => return Err(NoteBuildError::Note(e)),
    };
    let script = match compile_note_script(script_source) {
        Ok(script) => script,
        Err(e) => return Err(NoteBuildError::Script(e)),
    };
    let recipient = note_recipient_new(draft.serial_num, script, inputs);
    let note = note_new(asset_list, metadata, recipient);
    assert(words_of(draft.assets@) == asset_words(assets@));
    Ok(note)
}

/// What the P2ID note that pays `requested_asset` back to `underwriter` holds.
pub open spec fn payback_note_values(
    underwriter: AccountIdParts,
    buyer: AccountIdParts,
    requested_asset: Seq<u64>,
    payback_serial_num: Seq<u64>,
    script_root: Seq<u64>,
) -> (Seq<u64>, Seq<u64>, Seq<u64>, Seq<Seq<u64>>, Seq<u64>) {
    (
        payback_serial_num,
        script_root,
        seq![underwriter.suffix, underwriter.prefix],
        seq![requested_asset],
        metadata_values(
            seq![buyer.prefix, buyer.suffix],
            NoteKind::Public,
            local_account_tag(underwriter.prefix),
            ExecutionHint::Always,
            0,
        ),
    )
}

/// What the option contract note holds, given the recipient digest of its payback note.
pub open spec fn option_note_values(
    underwriter: AccountIdParts,
    buyer: AccountIdParts,
    offered_asset: Seq<u64>,
    requested_asset: Seq<u64>,
    expiration: u64,
    is_european: bool,
    aux: u64,
    payback_recipient: Seq<u64>,
    serial_num: Seq<u64>,
    script_root: Seq<u64>,
) -> (Seq<u64>, Seq<u64>, Seq<u64>, Seq<Seq<u64>>, Seq<u64>) {
    (
        serial_num,
        script_root,
        option_contract_inputs(payback_recipient, requested_asset, underwriter, buyer, expiration, is_european),
        seq![offered_asset],
        metadata_values(
            seq![underwriter.prefix, underwriter.suffix],
            NoteKind::Public,
            swap_tag(NoteKind::Public, faucet_prefix(offered_asset), faucet_prefix(requested_asset)),
            ExecutionHint::Always,
            aux,
        ),
    )
}

/// Writes the option contract that `underwriter` offers `buyer`: first the P2ID note that
/// pays `requested_asset` back to the underwriter (serial number `payback_serial_num`, script
/// `p2id_script`), then the option note (serial number `serial_num`, script `option_script`)
/// whose inputs carry that payback note's recipient digest. Returns `(option, payback)`;
/// both are owed when the two ids and the two assets are valid and both scripts compile.
pub fn create_option_contract_note(
    underwriter: AccountIdParts,
    buyer: AccountIdParts,
    offered_asset: [u64; 4],
    requested_asset: [u64; 4],
    expiration: u64,
    is_european: bool,
    aux: u64,
    payback_serial_num: [u64; 4],
    serial_num: [u64; 4],
    option_script: &str,
    p2id_script: &str,
) -> (result: Result<(Note, Note), NoteBuildError>)
    requires
        parts_are_felts(underwriter),
        parts_are_felts(buyer),
        all_felts(offered_asset@),
        all_felts(requested_asset@),
        is_felt(aux),
        all_felts(payback_serial_num@),
        all_felts(serial_num@),
    ensures
        result matches Ok(notes) ==> note_values(notes.1) == payback_note_values(underwriter, buyer, requested_asset@, payback_serial_num@, compiled_script_root(p2id_script@)),
        result matches Ok(notes) ==> note_values(notes.0) == option_note_values(underwriter, buyer, offered_asset@, requested_asset@, expiration, is_european, aux, note_recipient_digest(notes.1), serial_num@, compiled_script_root(option_script@)),
        (is_account_id(underwriter.prefix, underwriter.suffix) && is_account_id(buyer.prefix, buyer.suffix)
            && is_valid_asset_word(offered_asset@) && is_valid_asset_word(requested_asset@)
            && compiles_as_note_script(option_script@) && compiles_as_note_script(p2id_script@))
            ==> result is Ok,
{
    let mut payback_assets: Vec<[u64; 4]> = Vec::new();
    payback_assets.push(requested_asset);
    let payback_draft = create_p2id_note(buyer, underwriter, payback_assets, NoteKind::Public, 0, payback_serial_num);
    proof {
        lemma_library_tags_are_accepted(NoteKind::Public, offered_asset@[3], requested_asset@[3], underwriter.prefix);
        assert(words_of(payback_draft.assets@) =~= seq![requested_asset@]);
        if is_valid_asset_word(requested_asset@) {
            assert(payback_draft.assets_valid());
        }
    }
    let payback = match build_note(payback_draft, p2id_script) {
        Ok(note) => note,
        Err(e) => return Err(e),
    };
    let payback_recipient = recipient_digest(&payback);
    let option_draft = option_contract_draft(
        underwriter,
        buyer,
        offered_asset,
        requested_asset,
        expiration,
        is_european,
        aux,
        payback_recipient,
        serial_num,
    );
    proof {
        assert(words_of(option_draft.assets@) =~= seq![offered_asset@]);
        if is_valid_asset_word(offered_asset@) {
            assert(option_draft.assets_valid());
        }
    }
    let option = match build_note(option_draft, option_script) {
        Ok(note) => note,
        Err(e) => return Err(e),
    };
    Ok((option, payback))
}

/// The payback note of an option contract is the pay-to-id note that the buyer sends the
/// underwriter with the requested asset alone, public, with aux 0 and the payback serial
/// number: a note built from the draft that `create_p2id_note` gives for these arguments
/// holds what `create_option_contract_note` promises of its payback note.
pub proof fn lemma_payback_is_p2id_note(
    underwriter: AccountIdParts,
    buyer: AccountIdParts,
    requested_asset: [u64; 4],
    payback_serial_num: [u64; 4],
    script_root: Seq<u64>,
    draft: NoteDraft,
)
    requires
        draft.sender == buyer,
        draft.note_type == NoteKind::Public,
        draft.tag == local_account_tag(underwriter.prefix),
        draft.execution_hint == ExecutionHint::Always,
        draft.aux == 0,
        draft.assets@ == seq![requested_asset],
        draft.serial_num == payback_serial_num,
        draft.inputs@ == seq![underwriter.suffix, underwriter.prefix],
    ensures
        draft.note_values(script_root) == payback_note_values(underwriter, buyer, requested_asset@, payback_serial_num@, script_root),
{
    assert(words_of(draft.assets@) =~= seq![requested_asset@]);
}

/// Every tag the library makes is accepted for the notes it is made for: a swap tag for a
/// note of the kind it was built for, and an account tag for a note of any kind.
pub proof fn lemma_library_tags_are_accepted(
    note_type: NoteKind,
    offered_prefix: u64,
    requested_prefix: u64,
    account_prefix: u64,
)
    ensures
        tag_accepts(note_type, swap_tag(note_type, offered_prefix, requested_prefix)),
        tag_accepts(note_type, local_account_tag(account_prefix)),
{
    let payload = ((((offered_prefix >> 56u64) << 8u64) | (requested_prefix >> 56u64)) as u32);
    assert((0xc000_0000u32 | payload) & 0xc000_0000u32 == 0xc000_0000u32) by (bit_vector);
    let high = ((account_prefix >> 34u64) as u32) & 0xffff_0000u32;
    assert((high | 0xc000_0000u32) & 0xc000_0000u32 == 0xc000_0000u32) by (bit_vector);
}

} // verus!
