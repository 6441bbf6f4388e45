use vstd::prelude::*;

verus! {

/// The catalog of extension kinds a mint or token account can carry.
#[derive(Clone, Copy, Debug, PartialEq, Eq, Structural)]
pub enum ExtensionKind {
    TransferFee,
    DefaultAccountState,
    ImmutableOwner,
    NonTransferable,
    RequiredMemo,
    InterestBearing,
    PermanentDelegate,
    CpiGuard,
    TransferHook,
    MetadataPointer,
    Metadata,
    GroupPointer,
    Group,
    GroupMemberPointer,
    GroupMember,
    ScaledUiAmount,
    Pausable,
    MintCloseAuthority,
}

/// The two base record kinds an extension can be attached to.
#[derive(Clone, Copy, Debug, PartialEq, Eq, Structural)]
pub enum RecordKind {
    Mint,
    TokenAccount,
}

/// Whether an extension's initializer runs before or after the base record's.
#[derive(Clone, Copy, Debug, PartialEq, Eq, Structural)]
pub enum InitPosition {
    PreBase,
    PostBase,
}

/// Byte length of the base mint record.
pub const MINT_BASE_LEN: u64 = 82;

/// Byte length of the base token-account record.
pub const ACCOUNT_BASE_LEN: u64 = 165;

/// Byte length of a multisig record; an extended account may never have
/// exactly this length, so sizing pads past it.
pub const MULTISIG_LEN: u64 = 355;

/// Length of the padded base record plus the account-type byte that every
/// extended account starts with.
pub const EXTENDED_BASE_LEN: u64 = 166;

/// Each extension block is preceded by a two-byte type tag and a two-byte
/// length.
pub const TLV_HEADER_LEN: u64 = 4;

impl ExtensionKind {
    /// The fixed byte footprint of the extension's block. Only meaningful for
    /// sized kinds; `Metadata` is variable-length and is never summed.
    pub open spec fn spec_footprint(self) -> u64 {
        match self {
            ExtensionKind::TransferFee => 108,
            ExtensionKind::DefaultAccountState => 1,
            ExtensionKind::ImmutableOwner => 0,
            ExtensionKind::NonTransferable => 0,
            ExtensionKind::RequiredMemo => 1,
            ExtensionKind::InterestBearing => 52,
            ExtensionKind::PermanentDelegate => 32,
            ExtensionKind::CpiGuard => 1,
            ExtensionKind::TransferHook => 64,
            ExtensionKind::MetadataPointer => 64,
            ExtensionKind::Metadata => 0,
            ExtensionKind::GroupPointer => 64,
            ExtensionKind::Group => 80,
            ExtensionKind::GroupMemberPointer => 64,
            ExtensionKind::GroupMember => 72,
            ExtensionKind::ScaledUiAmount => 56,
            ExtensionKind::Pausable => 33,
            ExtensionKind::MintCloseAuthority => 32,
        }
    }

    pub fn footprint(&self) -> (r: u64)
        ensures
            r == self.spec_footprint(),
    {
        match self {
            ExtensionKind::TransferFee => 108,
            ExtensionKind::DefaultAccountState => 1,
            ExtensionKind::ImmutableOwner => 0,
            ExtensionKind::NonTransferable => 0,
            ExtensionKind::RequiredMemo => 1,
            ExtensionKind::InterestBearing => 52,
            ExtensionKind::PermanentDelegate => 32,
            ExtensionKind::CpiGuard => 1,
            ExtensionKind::TransferHook => 64,
            ExtensionKind::MetadataPointer => 64,
            ExtensionKind::Metadata => 0,
            ExtensionKind::GroupPointer => 64,
            ExtensionKind::Group => 80,
            ExtensionKind::GroupMemberPointer => 64,
            ExtensionKind::GroupMember => 72,
            ExtensionKind::ScaledUiAmount => 56,
            ExtensionKind::Pausable => 33,
            ExtensionKind::MintCloseAuthority => 32,
        }
    }

    /// Whether the kind has a fixed footprint. `Metadata` is the one
    /// variable-length kind; its block grows with its string fields.
    pub open spec fn spec_sized(self) -> bool {
        self !is Metadata
    }

    pub fn sized(&self) -> (r: bool)
        ensures
            r == self.spec_sized(),
    {
        !matches!(self, ExtensionKind::Metadata)
    }

    /// Which base record kind the extension applies to.
    pub open spec fn spec_applicable_to(self, record: RecordKind) -> bool {
        match self {
            ExtensionKind::ImmutableOwner => record is TokenAccount,
            ExtensionKind::RequiredMemo => record is TokenAccount,
            ExtensionKind::CpiGuard => record is TokenAccount,
            _ => record is Mint,
        }
    }

    pub fn applicable_to(&self, record: RecordKind) -> (r: bool)
        ensures
            r == self.spec_applicable_to(record),
    {
        match self {
            ExtensionKind::ImmutableOwner
            | ExtensionKind::RequiredMemo
            | ExtensionKind::CpiGuard => matches!(record, RecordKind::TokenAccount),
            _ => matches!(record, RecordKind::Mint),
        }
    }

    /// Pointer and configuration extensions are initialized before the base
    /// record; interface payloads (metadata, group, member) only after it.
    pub open spec fn spec_position(self) -> InitPosition {
        match self {
            ExtensionKind::Metadata => InitPosition::PostBase,
            ExtensionKind::Group => InitPosition::PostBase,
            ExtensionKind::GroupMember => InitPosition::PostBase,
            _ => InitPosition::PreBase,
        }
    }

    pub fn position(&self) -> (r: InitPosition)
        ensures
            r == self.spec_position(),
    {
        match self {
            ExtensionKind::Metadata
            | ExtensionKind::Group
            | ExtensionKind::GroupMember => InitPosition::PostBase,
            _ => InitPosition::PreBase,
        }
    }

    /// For a payload extension, the pointer extension that must already be
    /// initialized in the same account before the payload is.
    pub open spec fn spec_pointer_kind(self) -> Option<ExtensionKind> {
        match self {
            ExtensionKind::Metadata => Some(ExtensionKind::MetadataPointer),
            ExtensionKind::Group => Some(ExtensionKind::GroupPointer),
            ExtensionKind::GroupMember => Some(ExtensionKind::GroupMemberPointer),
            _ => None,
        }
    }

    pub fn pointer_kind(&self) -> (r: Option<ExtensionKind>)
        ensures
            r == self.spec_pointer_kind(),
    {
        match self {
            ExtensionKind::Metadata => Some(ExtensionKind::MetadataPointer),
            ExtensionKind::Group => Some(ExtensionKind::GroupPointer),
            ExtensionKind::GroupMember => Some(ExtensionKind::GroupMemberPointer),
            _ => None,
        }
    }

    /// The wire discriminant of the kind's type tag.
    pub open spec fn spec_type_code(self) -> u16 {
        match self {
            ExtensionKind::TransferFee => 1,
            ExtensionKind::MintCloseAuthority => 3,
            ExtensionKind::DefaultAccountState => 6,
            ExtensionKind::ImmutableOwner => 7,
            ExtensionKind::RequiredMemo => 8,
            ExtensionKind::NonTransferable => 9,
            ExtensionKind::InterestBearing => 10,
            ExtensionKind::CpiGuard => 11,
            ExtensionKind::PermanentDelegate => 12,
            ExtensionKind::TransferHook => 14,
            ExtensionKind::MetadataPointer => 18,
            ExtensionKind::Metadata => 19,
            ExtensionKind::GroupPointer => 20,
            ExtensionKind::Group => 21,
            ExtensionKind::GroupMemberPointer => 22,
            ExtensionKind::GroupMember => 23,
            ExtensionKind::ScaledUiAmount => 25,
            ExtensionKind::Pausable => 26,
        }
    }

    pub fn type_code(&self) -> (r: u16)
        ensures
            r == self.spec_type_code(),
    {
        match self {
            ExtensionKind::TransferFee => 1,
            ExtensionKind::MintCloseAuthority => 3,
            ExtensionKind::DefaultAccountState => 6,
            ExtensionKind::ImmutableOwner => 7,
            ExtensionKind::RequiredMemo => 8,
            ExtensionKind::NonTransferable => 9,
            ExtensionKind::InterestBearing => 10,
            ExtensionKind::CpiGuard => 11,
            ExtensionKind::PermanentDelegate => 12,
            ExtensionKind::TransferHook => 14,
            ExtensionKind::MetadataPointer => 18,
            ExtensionKind::Metadata => 19,
            ExtensionKind::GroupPointer => 20,
            ExtensionKind::Group => 21,
            ExtensionKind::GroupMemberPointer => 22,
            ExtensionKind::GroupMember => 23,
            ExtensionKind::ScaledUiAmount => 25,
            ExtensionKind::Pausable => 26,
        }
    }
}

pub open spec fn spec_base_len(record: RecordKind) -> u64 {
    match record {
        RecordKind::Mint => MINT_BASE_LEN,
        RecordKind::TokenAccount => ACCOUNT_BASE_LEN,
    }
}

pub fn base_len(record: RecordKind) -> (r: u64)
    ensures
        r == spec_base_len(record),
{
    match record {
        RecordKind::Mint => MINT_BASE_LEN,
        RecordKind::TokenAccount => ACCOUNT_BASE_LEN,
    }
}

/// Sum of the tagged block lengths of the given sized extensions.
pub open spec fn spec_tlv_sum(kinds: Seq<ExtensionKind>) -> int
    decreases kinds.len(),
{
    if kinds.len() == 0 {
        0
    } else {
        TLV_HEADER_LEN + kinds[0].spec_footprint() + spec_tlv_sum(kinds.drop_first())
    }
}

/// An extended account that would land exactly on the multisig length is
/// padded by one more type tag's width.
pub open spec fn spec_pad_multisig(total: int) -> int {
    if total == MULTISIG_LEN {
        total + 2
    } else {
        total
    }
}

/// The exact account length the token service expects for a base record of
/// `record` followed by the given sized extensions, in any order: the bare
/// base length when there are none, otherwise the padded base plus every
/// block with its header, stepping past the multisig length.
pub open spec fn spec_required_space(record: RecordKind, kinds: Seq<ExtensionKind>) -> int {
    if kinds.len() == 0 {
        spec_base_len(record) as int
    } else {
        spec_pad_multisig(EXTENDED_BASE_LEN + spec_tlv_sum(kinds))
    }
}

pub proof fn lemma_tlv_sum_push(kinds: Seq<ExtensionKind>, k: ExtensionKind)
    ensures
        spec_tlv_sum(kinds.push(k)) == spec_tlv_sum(kinds) + TLV_HEADER_LEN
            + k.spec_footprint(),
    decreases kinds.len(),
{
    if kinds.len() == 0 {
        assert(kinds.push(k)[0] == k);
        assert(kinds.push(k).drop_first() =~= Seq::<ExtensionKind>::empty());
        assert(spec_tlv_sum(kinds.push(k)) == TLV_HEADER_LEN + k.spec_footprint() + 0) by {
            reveal_with_fuel(spec_tlv_sum, 2);
        }
    } else {
        assert(kinds.push(k)[0] == kinds[0]);
        assert(kinds.push(k).drop_first() =~= kinds.drop_first().push(k));
        lemma_tlv_sum_push(kinds.drop_first(), k);
    }
}

pub proof fn lemma_tlv_sum_bounds(kinds: Seq<ExtensionKind>)
    ensures
        0 <= spec_tlv_sum(kinds) <= 112 * kinds.len(),
    decreases kinds.len(),
{
    if kinds.len() > 0 {
        lemma_tlv_sum_bounds(kinds.drop_first());
    }
}

/// The full catalog, as a set.
pub open spec fn spec_all_kinds() -> Set<ExtensionKind> {
    set![
        ExtensionKind::TransferFee,
        ExtensionKind::DefaultAccountState,
        ExtensionKind::ImmutableOwner,
        ExtensionKind::NonTransferable,
        ExtensionKind::RequiredMemo,
        ExtensionKind::InterestBearing,
        ExtensionKind::PermanentDelegate,
        ExtensionKind::CpiGuard,
        ExtensionKind::TransferHook,
        ExtensionKind::MetadataPointer,
        ExtensionKind::Metadata,
        ExtensionKind::GroupPointer,
        ExtensionKind::Group,
        ExtensionKind::GroupMemberPointer,
        ExtensionKind::GroupMember,
        ExtensionKind::ScaledUiAmount,
        ExtensionKind::Pausable,
        ExtensionKind::MintCloseAuthority,
    ]
}

/// There are only eighteen extension kinds, so a duplicate-free sequence of
/// them can have at most eighteen entries.
pub proof fn lemma_distinct_kinds_len(kinds: Seq<ExtensionKind>)
    requires
        kinds.no_duplicates(),
    ensures
        kinds.len() <= 18,
{
    kinds.unique_seq_to_set();
    assert(kinds.to_set().subset_of(spec_all_kinds()));
    assert(spec_all_kinds().len() == 18);
    vstd::set_lib::lemma_len_subset(kinds.to_set(), spec_all_kinds());
}

/// The padded base length plus every listed block with its header, before
/// stepping past the multisig length.
fn extended_len(kinds: &Vec<ExtensionKind>) -> (r: u64)
    requires
        kinds@.no_duplicates(),
    ensures
        r == EXTENDED_BASE_LEN + spec_tlv_sum(kinds@),
        r <= EXTENDED_BASE_LEN + 112 * kinds@.len(),
{
    proof {
        lemma_distinct_kinds_len(kinds@);
    }
    let mut total: u64 = EXTENDED_BASE_LEN;
    let mut i: usize = 0;
    while i < kinds.len()
        invariant
            i <= kinds@.len(),
            kinds@.len() <= 18,
            total == EXTENDED_BASE_LEN + spec_tlv_sum(kinds@.take(i as int)),
            total <= EXTENDED_BASE_LEN + 112 * i,
        decreases kinds@.len() - i,
    {
        proof {
            lemma_tlv_sum_push(kinds@.take(i as int), kinds@[i as int]);
            lemma_tlv_sum_bounds(kinds@.take(i as int));
            assert(kinds@.take(i + 1 as int) =~= kinds@.take(i as int).push(kinds@[i as int]));
        }
        total = total + TLV_HEADER_LEN + kinds[i].footprint();
        i = i + 1;
    }
    proof {
        assert(kinds@.take(kinds@.len() as int) =~= kinds@);
    }
    total
}

/// Computes `spec_required_space` for a duplicate-free extension list.
pub fn required_space(record: RecordKind, kinds: &Vec<ExtensionKind>) -> (r: u64)
    requires
        kinds@.no_duplicates(),
    ensures
        r == spec_required_space(record, kinds@),
{
    if kinds.len() == 0 {
        return base_len(record);
    }
    let total = extended_len(kinds);
    if total == MULTISIG_LEN {
        total + 2
    } else {
        total
    }
}

/// Computes `spec_required_space` for the listed extensions extended by one
/// more kind, without materializing the longer list.
pub fn required_space_with(
    record: RecordKind,
    kinds: &Vec<ExtensionKind>,
    extra: ExtensionKind,
) -> (r: u64)
    requires
        kinds@.push(extra).no_duplicates(),
    ensures
        r == spec_required_space(record, kinds@.push(extra)),
{
    proof {
        assert(kinds@ =~= kinds@.push(extra).take(kinds@.len() as int));
        assert(kinds@.no_duplicates());
        lemma_distinct_kinds_len(kinds@);
        lemma_tlv_sum_push(kinds@, extra);
    }
    let total = extended_len(kinds) + TLV_HEADER_LEN + extra.footprint();
    if total == MULTISIG_LEN {
        total + 2
    } else {
        total
    }
}

} // verus!
