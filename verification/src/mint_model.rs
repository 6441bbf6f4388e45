use vstd::prelude::*;

use crate::errors::TokenExtensionError;
use crate::fees::spec_multiplier_bits_valid;
use crate::fees::MAX_FEE_BASIS_POINTS;
use crate::keys::Key;
use crate::kinds::spec_required_space;
use crate::kinds::ExtensionKind;
use crate::kinds::InitPosition;
use crate::kinds::RecordKind;
use crate::kinds::MINT_BASE_LEN;

verus! {

/// Recorded state of the mint-close-authority extension.
#[derive(Clone, Copy, Debug, PartialEq, Eq, Structural)]
pub struct CloseAuthorityExt {
    pub authority: Option<Key>,
}

/// Recorded state of the transfer-fee extension.
#[derive(Clone, Copy, Debug, PartialEq, Eq, Structural)]
pub struct TransferFeeExt {
    pub config_authority: Option<Key>,
    pub withdraw_authority: Option<Key>,
    pub basis_points: u16,
    pub maximum_fee: u64,
}

/// Recorded state of the interest-bearing extension.
#[derive(Clone, Copy, Debug, PartialEq, Eq, Structural)]
pub struct InterestExt {
    pub rate_authority: Option<Key>,
    pub rate: i16,
}

/// Recorded state of the transfer-hook extension.
#[derive(Clone, Copy, Debug, PartialEq, Eq, Structural)]
pub struct TransferHookExt {
    pub authority: Option<Key>,
    pub program_id: Option<Key>,
}

/// Recorded state of a pointer extension (metadata, group or member pointer).
#[derive(Clone, Copy, Debug, PartialEq, Eq, Structural)]
pub struct PointerExt {
    pub authority: Option<Key>,
    pub address: Option<Key>,
}

/// Recorded state of the group extension.
#[derive(Clone, Copy, Debug, PartialEq, Eq, Structural)]
pub struct GroupExt {
    pub update_authority: Option<Key>,
    pub size: u32,
    pub max_size: u32,
}

/// Recorded state of the group-member extension.
#[derive(Clone, Copy, Debug, PartialEq, Eq, Structural)]
pub struct MemberExt {
    pub group: Key,
    pub member_number: u32,
}

/// Recorded state of the scaled-ui-amount extension; the multiplier is held
/// as the bit pattern of a binary64 number.
#[derive(Clone, Copy, Debug, PartialEq, Eq, Structural)]
pub struct ScaledUiExt {
    pub authority: Option<Key>,
    pub multiplier_bits: u64,
}

/// Recorded state of the pausable extension.
#[derive(Clone, Copy, Debug, PartialEq, Eq, Structural)]
pub struct PausableExt {
    pub authority: Key,
    pub paused: bool,
}

/// One entry of a metadata block's additional key-value list.
#[derive(Clone, Debug)]
pub struct MetadataField {
    pub name: String,
    pub value: String,
}

/// Recorded state of the metadata extension.
#[derive(Clone, Debug)]
pub struct MetadataExt {
    pub update_authority: Key,
    pub name: String,
    pub symbol: String,
    pub uri: String,
    pub additional: Vec<MetadataField>,
}

/// Initialization parameters, one variant per mint extension whose
/// initializer acts on the mint account alone. The group-member extension is
/// initialized through `init_group_member`, which also mutates the group.
#[derive(Clone, Debug)]
pub enum MintExtParams {
    CloseAuthority { authority: Option<Key> },
    TransferFee {
        config_authority: Option<Key>,
        withdraw_authority: Option<Key>,
        basis_points: u16,
        maximum_fee: u64,
    },
    DefaultState { state: u8 },
    NonTransferable,
    InterestBearing { rate_authority: Option<Key>, rate: i16 },
    PermanentDelegate { delegate: Key },
    TransferHook { authority: Option<Key>, program_id: Option<Key> },
    MetadataPointer { authority: Option<Key>, address: Option<Key> },
    Metadata { update_authority: Key, name: String, symbol: String, uri: String },
    GroupPointer { authority: Option<Key>, address: Option<Key> },
    Group { update_authority: Option<Key>, max_size: u32 },
    MemberPointer { authority: Option<Key>, address: Option<Key> },
    ScaledUiAmount { authority: Option<Key>, multiplier_bits: u64 },
    Pausable { authority: Key },
}

impl MintExtParams {
    pub open spec fn spec_kind(self) -> ExtensionKind {
        match self {
            MintExtParams::CloseAuthority { .. } => ExtensionKind::MintCloseAuthority,
            MintExtParams::TransferFee { .. } => ExtensionKind::TransferFee,
            MintExtParams::DefaultState { .. } => ExtensionKind::DefaultAccountState,
            MintExtParams::NonTransferable => ExtensionKind::NonTransferable,
            MintExtParams::InterestBearing { .. } => ExtensionKind::InterestBearing,
            MintExtParams::PermanentDelegate { .. } => ExtensionKind::PermanentDelegate,
            MintExtParams::TransferHook { .. } => ExtensionKind::TransferHook,
            MintExtParams::MetadataPointer { .. } => ExtensionKind::MetadataPointer,
            MintExtParams::Metadata { .. } => ExtensionKind::Metadata,
            MintExtParams::GroupPointer { .. } => ExtensionKind::GroupPointer,
            MintExtParams::Group { .. } => ExtensionKind::Group,
            MintExtParams::MemberPointer { .. } => ExtensionKind::GroupMemberPointer,
            MintExtParams::ScaledUiAmount { .. } => ExtensionKind::ScaledUiAmount,
            MintExtParams::Pausable { .. } => ExtensionKind::Pausable,
        }
    }

    pub fn kind(&self) -> (r: ExtensionKind)
        ensures
            r == self.spec_kind(),
    {
        match self {
            MintExtParams::CloseAuthority { .. } => ExtensionKind::MintCloseAuthority,
            MintExtParams::TransferFee { .. } => ExtensionKind::TransferFee,
            MintExtParams::DefaultState { .. } => ExtensionKind::DefaultAccountState,
            MintExtParams::NonTransferable => ExtensionKind::NonTransferable,
            MintExtParams::InterestBearing { .. } => ExtensionKind::InterestBearing,
            MintExtParams::PermanentDelegate { .. } => ExtensionKind::PermanentDelegate,
            MintExtParams::TransferHook { .. } => ExtensionKind::TransferHook,
            MintExtParams::MetadataPointer { .. } => ExtensionKind::MetadataPointer,
            MintExtParams::Metadata { .. } => ExtensionKind::Metadata,
            MintExtParams::GroupPointer { .. } => ExtensionKind::GroupPointer,
            MintExtParams::Group { .. } => ExtensionKind::Group,
            MintExtParams::MemberPointer { .. } => ExtensionKind::GroupMemberPointer,
            MintExtParams::ScaledUiAmount { .. } => ExtensionKind::ScaledUiAmount,
            MintExtParams::Pausable { .. } => ExtensionKind::Pausable,
        }
    }
}

/// Model of one mint account: the base record's fields, the set of
/// initialized extension blocks with their recorded state, and the order in
/// which the blocks were initialized, which is part of the stored layout.
#[derive(Clone, Debug)]
pub struct MintModel {
    pub space: u64,
    pub base_initialized: bool,
    pub closed: bool,
    pub supply: u64,
    pub decimals: u8,
    pub mint_authority: Option<Key>,
    pub freeze_authority: Option<Key>,
    pub init_order: Vec<ExtensionKind>,
    pub close_authority_ext: Option<CloseAuthorityExt>,
    pub transfer_fee: Option<TransferFeeExt>,
    pub default_state: Option<u8>,
    pub interest: Option<InterestExt>,
    pub permanent_delegate: Option<Key>,
    pub transfer_hook: Option<TransferHookExt>,
    pub metadata_pointer: Option<PointerExt>,
    pub metadata: Option<MetadataExt>,
    pub group_pointer: Option<PointerExt>,
    pub group: Option<GroupExt>,
    pub member_pointer: Option<PointerExt>,
    pub member: Option<MemberExt>,
    pub scaled_ui: Option<ScaledUiExt>,
    pub pausable: Option<PausableExt>,
}

impl MintModel {
    pub open spec fn spec_has(self, k: ExtensionKind) -> bool {
        self.init_order@.contains(k)
    }

    pub fn has_ext(&self, k: ExtensionKind) -> (r: bool)
        ensures
            r == self.spec_has(k),
    {
        let mut i: usize = 0;
        while i < self.init_order.len()
            invariant
                i <= self.init_order@.len(),
                forall|j: int| 0 <= j < i ==> self.init_order@[j] != k,
            decreases self.init_order@.len() - i,
        {
            if self.init_order[i] == k {
                return true;
            }
            i = i + 1;
        }
        false
    }

    /// Well-formedness: the recorded block order is duplicate-free and
    /// mint-applicable, each data field is present exactly when its block
    /// is, and every block's recorded values satisfy its own domain rules.
    pub open spec fn wf(self) -> bool {
        &&& self.init_order@.no_duplicates()
        &&& forall|i: int|
            0 <= i < self.init_order@.len() ==> (#[trigger] self.init_order@[i])
                .spec_applicable_to(RecordKind::Mint)
        &&& self.close_authority_ext is Some <==> self.spec_has(ExtensionKind::MintCloseAuthority)
        &&& self.transfer_fee is Some <==> self.spec_has(ExtensionKind::TransferFee)
        &&& self.default_state is Some <==> self.spec_has(ExtensionKind::DefaultAccountState)
        &&& self.interest is Some <==> self.spec_has(ExtensionKind::InterestBearing)
        &&& self.permanent_delegate is Some <==> self.spec_has(ExtensionKind::PermanentDelegate)
        &&& self.transfer_hook is Some <==> self.spec_has(ExtensionKind::TransferHook)
        &&& self.metadata_pointer is Some <==> self.spec_has(ExtensionKind::MetadataPointer)
        &&& self.metadata is Some <==> self.spec_has(ExtensionKind::Metadata)
        &&& self.group_pointer is Some <==> self.spec_has(ExtensionKind::GroupPointer)
        &&& self.group is Some <==> self.spec_has(ExtensionKind::Group)
        &&& self.member_pointer is Some <==> self.spec_has(ExtensionKind::GroupMemberPointer)
        &&& self.member is Some <==> self.spec_has(ExtensionKind::GroupMember)
        &&& self.scaled_ui is Some <==> self.spec_has(ExtensionKind::ScaledUiAmount)
        &&& self.pausable is Some <==> self.spec_has(ExtensionKind::Pausable)
        &&& match self.default_state {
            Some(s) => s <= 2,
            None => true,
        }
        &&& match self.transfer_fee {
            Some(f) => f.basis_points <= MAX_FEE_BASIS_POINTS,
            None => true,
        }
        &&& match self.scaled_ui {
            Some(s) => spec_multiplier_bits_valid(s.multiplier_bits),
            None => true,
        }
        &&& match self.group {
            Some(g) => g.size <= g.max_size,
            None => true,
        }
        &&& !self.base_initialized ==> self.supply == 0
        &&& self.closed ==> self.base_initialized
    }

    /// A freshly provisioned, program-owned, zeroed account of `space` bytes.
    pub open spec fn spec_is_provisioned(self, space: u64) -> bool {
        &&& self.space == space
        &&& !self.base_initialized
        &&& !self.closed
        &&& self.supply == 0
        &&& self.decimals == 0
        &&& self.mint_authority is None
        &&& self.freeze_authority is None
        &&& self.init_order@ == Seq::<ExtensionKind>::empty()
        &&& self.close_authority_ext is None
        &&& self.transfer_fee is None
        &&& self.default_state is None
        &&& self.interest is None
        &&& self.permanent_delegate is None
        &&& self.transfer_hook is None
        &&& self.metadata_pointer is None
        &&& self.metadata is None
        &&& self.group_pointer is None
        &&& self.group is None
        &&& self.member_pointer is None
        &&& self.member is None
        &&& self.scaled_ui is None
        &&& self.pausable is None
    }

    pub fn provisioned(space: u64) -> (r: MintModel)
        ensures
            r.spec_is_provisioned(space),
            r.wf(),
    {
        MintModel {
            space,
            base_initialized: false,
            closed: false,
            supply: 0,
            decimals: 0,
            mint_authority: None,
            freeze_authority: None,
            init_order: Vec::new(),
            close_authority_ext: None,
            transfer_fee: None,
            default_state: None,
            interest: None,
            permanent_delegate: None,
            transfer_hook: None,
            metadata_pointer: None,
            metadata: None,
            group_pointer: None,
            group: None,
            member_pointer: None,
            member: None,
            scaled_ui: None,
            pausable: None,
        }
    }
}

/// The error an out-of-place or ill-fitting initializer reports: interface
/// payloads report their own configuration error, everything else reports an
/// invalid extension type.
pub open spec fn spec_cfg_error(k: ExtensionKind) -> TokenExtensionError {
    match k {
        ExtensionKind::Metadata => TokenExtensionError::InvalidMetadata,
        ExtensionKind::Group => TokenExtensionError::InvalidGroupConfig,
        ExtensionKind::GroupMember => TokenExtensionError::InvalidMemberConfig,
        _ => TokenExtensionError::InvalidExtensionType,
    }
}

/// Domain rules on initialization parameters, checked after the placement
/// rules.
pub open spec fn spec_domain_error(p: MintExtParams) -> Option<TokenExtensionError> {
    match p {
        MintExtParams::TransferFee { basis_points, .. } => if basis_points
            > MAX_FEE_BASIS_POINTS {
            Some(TokenExtensionError::InvalidTransferFeeConfig)
        } else {
            None
        },
        MintExtParams::DefaultState { state } => if state > 2 {
            Some(TokenExtensionError::InvalidDefaultAccountState)
        } else {
            None
        },
        MintExtParams::ScaledUiAmount { multiplier_bits, .. } => if !spec_multiplier_bits_valid(
            multiplier_bits,
        ) {
            Some(TokenExtensionError::InvalidUiAmountMultiplier)
        } else {
            None
        },
        _ => None,
    }
}

/// The first rule an extension initializer breaks on `m`, if any: a closed
/// account takes nothing; a block may be written once; pre-base blocks only
/// before the base record and only into sufficient space; payload blocks
/// only after the base record and after their pointer block.
pub open spec fn spec_init_check(m: MintModel, p: MintExtParams) -> Option<TokenExtensionError> {
    let k = p.spec_kind();
    if m.closed {
        Some(TokenExtensionError::InvalidExtensionType)
    } else if m.spec_has(k) {
        Some(TokenExtensionError::ExtensionAlreadyInitialized)
    } else if k.spec_position() is PreBase && m.base_initialized {
        Some(TokenExtensionError::InvalidExtensionType)
    } else if k.spec_position() is PostBase && !m.base_initialized {
        Some(spec_cfg_error(k))
    } else if k.spec_position() is PostBase && !m.spec_has(k.spec_pointer_kind()->Some_0) {
        Some(spec_cfg_error(k))
    } else if k.spec_sized() && spec_required_space(RecordKind::Mint, m.init_order@.push(k))
        > m.space {
        Some(spec_cfg_error(k))
    } else {
        spec_domain_error(p)
    }
}

/// All fields of `post` other than the base record, the block order, and the
/// block belonging to `k` are those of `pre`.
pub open spec fn spec_exts_unchanged_except(pre: MintModel, post: MintModel, k: ExtensionKind) -> bool {
    &&& k != ExtensionKind::MintCloseAuthority ==> post.close_authority_ext
        == pre.close_authority_ext
    &&& k != ExtensionKind::TransferFee ==> post.transfer_fee == pre.transfer_fee
    &&& k != ExtensionKind::DefaultAccountState ==> post.default_state == pre.default_state
    &&& k != ExtensionKind::InterestBearing ==> post.interest == pre.interest
    &&& k != ExtensionKind::PermanentDelegate ==> post.permanent_delegate
        == pre.permanent_delegate
    &&& k != ExtensionKind::TransferHook ==> post.transfer_hook == pre.transfer_hook
    &&& k != ExtensionKind::MetadataPointer ==> post.metadata_pointer == pre.metadata_pointer
    &&& k != ExtensionKind::Metadata ==> post.metadata == pre.metadata
    &&& k != ExtensionKind::GroupPointer ==> post.group_pointer == pre.group_pointer
    &&& k != ExtensionKind::Group ==> post.group == pre.group
    &&& k != ExtensionKind::GroupMemberPointer ==> post.member_pointer == pre.member_pointer
    &&& k != ExtensionKind::GroupMember ==> post.member == pre.member
    &&& k != ExtensionKind::ScaledUiAmount ==> post.scaled_ui == pre.scaled_ui
    &&& k != ExtensionKind::Pausable ==> post.pausable == pre.pausable
}

/// The base record of `post` is that of `pre`.
pub open spec fn spec_base_unchanged(pre: MintModel, post: MintModel) -> bool {
    &&& post.space == pre.space
    &&& post.base_initialized == pre.base_initialized
    &&& post.closed == pre.closed
    &&& post.supply == pre.supply
    &&& post.decimals == pre.decimals
    &&& post.mint_authority == pre.mint_authority
    &&& post.freeze_authority == pre.freeze_authority
}

/// The block written by a successful initializer, with its initial values.
pub open spec fn spec_block_written(post: MintModel, p: MintExtParams) -> bool {
    match p {
        MintExtParams::CloseAuthority { authority } => post.close_authority_ext == Some(
            CloseAuthorityExt { authority },
        ),
        MintExtParams::TransferFee {
            config_authority,
            withdraw_authority,
            basis_points,
            maximum_fee,
        } => post.transfer_fee == Some(
            TransferFeeExt { config_authority, withdraw_authority, basis_points, maximum_fee },
        ),
        MintExtParams::DefaultState { state } => post.default_state == Some(state),
        MintExtParams::NonTransferable => true,
        MintExtParams::InterestBearing { rate_authority, rate } => post.interest == Some(
            InterestExt { rate_authority, rate },
        ),
        MintExtParams::PermanentDelegate { delegate } => post.permanent_delegate == Some(delegate),
        MintExtParams::TransferHook { authority, program_id } => post.transfer_hook == Some(
            TransferHookExt { authority, program_id },
        ),
        MintExtParams::MetadataPointer { authority, address } => post.metadata_pointer == Some(
            PointerExt { authority, address },
        ),
        MintExtParams::Metadata { update_authority, name, symbol, uri } => {
            &&& post.metadata matches Some(md)
            &&& md.update_authority == update_authority
            &&& md.name@ == name@
            &&& md.symbol@ == symbol@
            &&& md.uri@ == uri@
            &&& md.additional@ == Seq::<MetadataField>::empty()
        },
        MintExtParams::GroupPointer { authority, address } => post.group_pointer == Some(
            PointerExt { authority, address },
        ),
        MintExtParams::Group { update_authority, max_size } => post.group == Some(
            GroupExt { update_authority, size: 0, max_size },
        ),
        MintExtParams::MemberPointer { authority, address } => post.member_pointer == Some(
            PointerExt { authority, address },
        ),
        MintExtParams::ScaledUiAmount { authority, multiplier_bits } => post.scaled_ui == Some(
            ScaledUiExt { authority, multiplier_bits },
        ),
        MintExtParams::Pausable { authority } => post.pausable == Some(
            PausableExt { authority, paused: false },
        ),
    }
}

/// Full effect of a successful extension initialization.
pub open spec fn spec_init_post(pre: MintModel, post: MintModel, p: MintExtParams) -> bool {
    &&& post.init_order@ == pre.init_order@.push(p.spec_kind())
    &&& spec_base_unchanged(pre, post)
    &&& spec_exts_unchanged_except(pre, post, p.spec_kind())
    &&& spec_block_written(post, p)
}

pub proof fn lemma_push_contains(s: Seq<ExtensionKind>, k: ExtensionKind)
    ensures
        forall|x: ExtensionKind| #[trigger]
            s.push(k).contains(x) <==> (s.contains(x) || x == k),
{
    assert forall|x: ExtensionKind| #[trigger] s.push(k).contains(x) implies (s.contains(x) || x
        == k) by {
        let i = choose|i: int| 0 <= i < s.push(k).len() && s.push(k)[i] == x;
        if i < s.len() {
            assert(s[i] == x);
        }
    }
    assert forall|x: ExtensionKind| (s.contains(x) || x == k) implies #[trigger] s.push(k)
        .contains(x) by {
        if s.contains(x) {
            let i = choose|i: int| 0 <= i < s.len() && s[i] == x;
            assert(s.push(k)[i] == x);
        } else {
            assert(s.push(k)[s.len() as int] == x);
        }
    }
}

pub proof fn lemma_push_no_duplicates(s: Seq<ExtensionKind>, k: ExtensionKind)
    requires
        s.no_duplicates(),
        !s.contains(k),
    ensures
        s.push(k).no_duplicates(),
{
    assert forall|i: int, j: int|
        0 <= i < s.push(k).len() && 0 <= j < s.push(k).len() && i != j implies s.push(k)[i]
        != s.push(k)[j] by {
        if i < s.len() && j < s.len() {
        } else if i < s.len() {
            assert(s[i] == s.push(k)[i]);
            assert(!s.contains(k));
        } else if j < s.len() {
            assert(s[j] == s.push(k)[j]);
        }
    }
}

impl MintModel {
    /// Initializes one extension block on this account. On failure the
    /// account is unchanged and the reported error is the first rule broken,
    /// as `spec_init_check` lays the rules out.
    pub fn init_extension(&mut self, p: MintExtParams) -> (r: Result<(), TokenExtensionError>)
        requires
            old(self).wf(),
        ensures
            final(self).wf(),
            r is Err <==> spec_init_check(*old(self), p) is Some,
            r matches Err(e) ==> *final(self) == *old(self) && spec_init_check(*old(self), p)
                == Some(e),
            r is Ok ==> spec_init_post(*old(self), *final(self), p),
    {
        let k = p.kind();
        if self.closed {
            return Err(TokenExtensionError::InvalidExtensionType);
        }
        if self.has_ext(k) {
            return Err(TokenExtensionError::ExtensionAlreadyInitialized);
        }
        let cfg_err = match k {
            ExtensionKind::Metadata => TokenExtensionError::InvalidMetadata,
            ExtensionKind::Group => TokenExtensionError::InvalidGroupConfig,
            ExtensionKind::GroupMember => TokenExtensionError::InvalidMemberConfig,
            _ => TokenExtensionError::InvalidExtensionType,
        };
        match k.position() {
            InitPosition::PreBase => {
                if self.base_initialized {
                    return Err(TokenExtensionError::InvalidExtensionType);
                }
            },
            InitPosition::PostBase => {
                if !self.base_initialized {
                    return Err(cfg_err);
                }
                let pointer = k.pointer_kind().unwrap();
                if !self.has_ext(pointer) {
                    return Err(cfg_err);
                }
            },
        }
        if k.sized() {
            proof {
                lemma_push_no_duplicates(self.init_order@, k);
            }
            let needed = crate::kinds::required_space_with(
                RecordKind::Mint,
                &self.init_order,
                k,
            );
            if needed > self.space {
                return Err(cfg_err);
            }
        }
        match &p {
            MintExtParams::TransferFee { basis_points, .. } => {
                if *basis_points > MAX_FEE_BASIS_POINTS {
                    return Err(TokenExtensionError::InvalidTransferFeeConfig);
                }
            },
            MintExtParams::DefaultState { state } => {
                if *state > 2 {
                    return Err(TokenExtensionError::InvalidDefaultAccountState);
                }
            },
            MintExtParams::ScaledUiAmount { multiplier_bits, .. } => {
                if !crate::fees::multiplier_bits_valid(*multiplier_bits) {
                    return Err(TokenExtensionError::InvalidUiAmountMultiplier);
                }
            },
            _ => {},
        }
        proof {
            lemma_push_no_duplicates(self.init_order@, k);
            lemma_push_contains(self.init_order@, k);
        }
        match p {
            MintExtParams::CloseAuthority { authority } => {
                self.close_authority_ext = Some(CloseAuthorityExt { authority });
            },
            MintExtParams::TransferFee {
                config_authority,
                withdraw_authority,
                basis_points,
                maximum_fee,
            } => {
                self.transfer_fee = Some(
                    TransferFeeExt {
                        config_authority,
                        withdraw_authority,
                        basis_points,
                        maximum_fee,
                    },
                );
            },
            MintExtParams::DefaultState { state } => {
                self.default_state = Some(state);
            },
            MintExtParams::NonTransferable => {},
            MintExtParams::InterestBearing { rate_authority, rate } => {
                self.interest = Some(InterestExt { rate_authority, rate });
            },
            MintExtParams::PermanentDelegate { delegate } => {
                self.permanent_delegate = Some(delegate);
            },
            MintExtParams::TransferHook { authority, program_id } => {
                self.transfer_hook = Some(TransferHookExt { authority, program_id });
            },
            MintExtParams::MetadataPointer { authority, address } => {
                self.metadata_pointer = Some(PointerExt { authority, address });
            },
            MintExtParams::Metadata { update_authority, name, symbol, uri } => {
                self.metadata = Some(
                    MetadataExt { update_authority, name, symbol, uri, additional: Vec::new() },
                );
            },
            MintExtParams::GroupPointer { authority, address } => {
                self.group_pointer = Some(PointerExt { authority, address });
            },
            MintExtParams::Group { update_authority, max_size } => {
                self.group = Some(GroupExt { update_authority, size: 0, max_size });
            },
            MintExtParams::MemberPointer { authority, address } => {
                self.member_pointer = Some(PointerExt { authority, address });
            },
            MintExtParams::ScaledUiAmount { authority, multiplier_bits } => {
                self.scaled_ui = Some(ScaledUiExt { authority, multiplier_bits });
            },
            MintExtParams::Pausable { authority } => {
                self.pausable = Some(PausableExt { authority, paused: false });
            },
        }
        self.init_order.push(k);
        Ok(())
    }
}

/// The first rule the base-record initializer breaks, if any: the base is
/// written once, only onto an open account, and only when the account's
/// length agrees with its blocks — the bare base length when no block was
/// initialized, at least the occupied length otherwise.
pub open spec fn spec_base_init_check(m: MintModel) -> Option<TokenExtensionError> {
    if m.closed {
        Some(TokenExtensionError::InvalidExtensionType)
    } else if m.base_initialized {
        Some(TokenExtensionError::ExtensionAlreadyInitialized)
    } else if m.init_order@.len() == 0 && m.space != MINT_BASE_LEN {
        Some(TokenExtensionError::InvalidExtensionType)
    } else if m.init_order@.len() > 0 && spec_required_space(RecordKind::Mint, m.init_order@)
        > m.space {
        Some(TokenExtensionError::InvalidExtensionType)
    } else {
        None
    }
}

/// Effect of a successful base-record initialization.
pub open spec fn spec_base_init_post(
    pre: MintModel,
    post: MintModel,
    mint_authority: Key,
    freeze_authority: Option<Key>,
    decimals: u8,
) -> bool {
    &&& post == MintModel {
        base_initialized: true,
        mint_authority: Some(mint_authority),
        freeze_authority,
        decimals,
        ..pre
    }
}

impl MintModel {
    /// Initializes the base mint record, the terminal step of creation; every
    /// planned pre-base block must already be in place.
    pub fn init_base(
        &mut self,
        mint_authority: Key,
        freeze_authority: Option<Key>,
        decimals: u8,
    ) -> (r: Result<(), TokenExtensionError>)
        requires
            old(self).wf(),
        ensures
            final(self).wf(),
            r is Err <==> spec_base_init_check(*old(self)) is Some,
            r matches Err(e) ==> *final(self) == *old(self) && spec_base_init_check(*old(self))
                == Some(e),
            r is Ok ==> spec_base_init_post(
                *old(self),
                *final(self),
                mint_authority,
                freeze_authority,
                decimals,
            ),
    {
        if self.closed {
            return Err(TokenExtensionError::InvalidExtensionType);
        }
        if self.base_initialized {
            return Err(TokenExtensionError::ExtensionAlreadyInitialized);
        }
        if self.init_order.len() == 0 {
            if self.space != MINT_BASE_LEN {
                return Err(TokenExtensionError::InvalidExtensionType);
            }
        } else {
            let needed = crate::kinds::required_space(RecordKind::Mint, &self.init_order);
            if needed > self.space {
                return Err(TokenExtensionError::InvalidExtensionType);
            }
        }
        self.base_initialized = true;
        self.mint_authority = Some(mint_authority);
        self.freeze_authority = freeze_authority;
        self.decimals = decimals;
        Ok(())
    }
}

} // verus!
