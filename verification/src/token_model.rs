use vstd::prelude::*;

use crate::errors::TokenExtensionError;
use crate::keys::Key;
use crate::kinds::spec_required_space;
use crate::kinds::ExtensionKind;
use crate::kinds::RecordKind;
use crate::kinds::ACCOUNT_BASE_LEN;

verus! {

/// Recorded state of the required-memo-transfers extension.
#[derive(Clone, Copy, Debug, PartialEq, Eq, Structural)]
pub struct MemoExt {
    pub require_incoming: bool,
}

/// Recorded state of the CPI-guard extension.
#[derive(Clone, Copy, Debug, PartialEq, Eq, Structural)]
pub struct CpiGuardExt {
    pub enabled: bool,
}

/// Initialization parameters for token-account extensions that are written
/// at creation time, before the base record. The memo and CPI-guard blocks
/// are instead written by their enable operations on the live account.
#[derive(Clone, Copy, Debug, PartialEq, Eq, Structural)]
pub enum TokenExtParams {
    ImmutableOwner,
}

impl TokenExtParams {
    pub open spec fn spec_kind(self) -> ExtensionKind {
        match self {
            TokenExtParams::ImmutableOwner => ExtensionKind::ImmutableOwner,
        }
    }

    pub fn kind(&self) -> (r: ExtensionKind)
        ensures
            r == self.spec_kind(),
    {
        ExtensionKind::ImmutableOwner
    }
}

/// Model of one token account: the base record's fields, the withheld fee
/// balance its fee block segregates, and its extension blocks in
/// initialization order.
#[derive(Clone, Debug)]
pub struct TokenModel {
    pub space: u64,
    pub base_initialized: bool,
    pub closed: bool,
    pub owner: Key,
    pub mint: Key,
    pub amount: u64,
    pub frozen: bool,
    pub withheld: u64,
    pub init_order: Vec<ExtensionKind>,
    pub required_memo: Option<MemoExt>,
    pub cpi_guard: Option<CpiGuardExt>,
}

impl TokenModel {
    pub open spec fn spec_has(self, k: ExtensionKind) -> bool {
        self.init_order@.contains(k)
    }

    pub fn has_ext(&self, k: ExtensionKind) -> (r: bool)
        ensures
            r == self.spec_has(k),
    {
        let mut i: usize = 0;
        while i < self.init_order.len()
            invariant
                i <= self.init_order@.len(),
                forall|j: int| 0 <= j < i ==> self.init_order@[j] != k,
            decreases self.init_order@.len() - i,
        {
            if self.init_order[i] == k {
                return true;
            }
            i = i + 1;
        }
        false
    }

    pub open spec fn wf(self) -> bool {
        &&& self.init_order@.no_duplicates()
        &&& forall|i: int|
            0 <= i < self.init_order@.len() ==> (#[trigger] self.init_order@[i])
                .spec_applicable_to(RecordKind::TokenAccount)
        &&& self.required_memo is Some <==> self.spec_has(ExtensionKind::RequiredMemo)
        &&& self.cpi_guard is Some <==> self.spec_has(ExtensionKind::CpiGuard)
        &&& !self.base_initialized ==> self.amount == 0 && self.withheld == 0 && !self.frozen
        &&& self.closed ==> self.base_initialized
    }

    /// A freshly provisioned, program-owned, zeroed account of `space` bytes.
    pub open spec fn spec_is_provisioned(self, space: u64) -> bool {
        &&& self.space == space
        &&& !self.base_initialized
        &&& !self.closed
        &&& self.owner == Key::spec_zero()
        &&& self.mint == Key::spec_zero()
        &&& self.amount == 0
        &&& !self.frozen
        &&& self.withheld == 0
        &&& self.init_order@ == Seq::<ExtensionKind>::empty()
        &&& self.required_memo is None
        &&& self.cpi_guard is None
    }

    pub fn provisioned(space: u64) -> (r: TokenModel)
        ensures
            r.spec_is_provisioned(space),
            r.wf(),
    {
        TokenModel {
            space,
            base_initialized: false,
            closed: false,
            owner: Key::zero(),
            mint: Key::zero(),
            amount: 0,
            frozen: false,
            withheld: 0,
            init_order: Vec::new(),
            required_memo: None,
            cpi_guard: None,
        }
    }
}

/// The first rule a token-account extension initializer breaks, if any; the
/// rules mirror the mint side for pre-base blocks.
pub open spec fn spec_token_init_check(m: TokenModel, p: TokenExtParams) -> Option<
    TokenExtensionError,
> {
    let k = p.spec_kind();
    if m.closed {
        Some(TokenExtensionError::InvalidExtensionType)
    } else if m.spec_has(k) {
        Some(TokenExtensionError::ExtensionAlreadyInitialized)
    } else if m.base_initialized {
        Some(TokenExtensionError::InvalidExtensionType)
    } else if spec_required_space(RecordKind::TokenAccount, m.init_order@.push(k)) > m.space {
        Some(TokenExtensionError::InvalidExtensionType)
    } else {
        None
    }
}

/// Effect of a successful token-account extension initialization.
pub open spec fn spec_token_init_post(pre: TokenModel, post: TokenModel, p: TokenExtParams) -> bool {
    post == TokenModel { init_order: post.init_order, ..pre } && post.init_order@
        == pre.init_order@.push(p.spec_kind())
}

/// The first rule the token-account base initializer breaks, if any. Unlike
/// a mint, a token account may be provisioned larger than its initialized
/// blocks demand: its owner-enabled blocks (memo, CPI guard) are written
/// into the spare tail after the base record.
pub open spec fn spec_token_base_init_check(m: TokenModel) -> Option<TokenExtensionError> {
    if m.closed {
        Some(TokenExtensionError::InvalidExtensionType)
    } else if m.base_initialized {
        Some(TokenExtensionError::ExtensionAlreadyInitialized)
    } else if m.init_order@.len() == 0 && m.space < ACCOUNT_BASE_LEN {
        Some(TokenExtensionError::InvalidExtensionType)
    } else if m.init_order@.len() > 0 && spec_required_space(
        RecordKind::TokenAccount,
        m.init_order@,
    ) > m.space {
        Some(TokenExtensionError::InvalidExtensionType)
    } else {
        None
    }
}

impl TokenModel {
    /// Initializes one extension block on this account before its base
    /// record is written.
    pub fn init_extension(&mut self, p: TokenExtParams) -> (r: Result<(), TokenExtensionError>)
        requires
            old(self).wf(),
        ensures
            final(self).wf(),
            r is Err <==> spec_token_init_check(*old(self), p) is Some,
            r matches Err(e) ==> *final(self) == *old(self) && spec_token_init_check(
                *old(self),
                p,
            ) == Some(e),
            r is Ok ==> spec_token_init_post(*old(self), *final(self), p),
    {
        let k = p.kind();
        if self.closed {
            return Err(TokenExtensionError::InvalidExtensionType);
        }
        if self.has_ext(k) {
            return Err(TokenExtensionError::ExtensionAlreadyInitialized);
        }
        if self.base_initialized {
            return Err(TokenExtensionError::InvalidExtensionType);
        }
        proof {
            crate::mint_model::lemma_push_no_duplicates(self.init_order@, k);
        }
        let needed = crate::kinds::required_space_with(
            RecordKind::TokenAccount,
            &self.init_order,
            k,
        );
        if needed > self.space {
            return Err(TokenExtensionError::InvalidExtensionType);
        }
        proof {
            crate::mint_model::lemma_push_contains(self.init_order@, k);
        }
        self.init_order.push(k);
        Ok(())
    }

    /// Initializes the base token-account record, binding it to its mint and
    /// owning wallet; the terminal step of account creation.
    pub fn init_base(&mut self, owner: Key, mint: Key) -> (r: Result<(), TokenExtensionError>)
        requires
            old(self).wf(),
        ensures
            final(self).wf(),
            r is Err <==> spec_token_base_init_check(*old(self)) is Some,
            r matches Err(e) ==> *final(self) == *old(self) && spec_token_base_init_check(
                *old(self),
            ) == Some(e),
            r is Ok ==> *final(self) == (TokenModel {
                base_initialized: true,
                owner,
                mint,
                ..*old(self)
            }),
    {
        if self.closed {
            return Err(TokenExtensionError::InvalidExtensionType);
        }
        if self.base_initialized {
            return Err(TokenExtensionError::ExtensionAlreadyInitialized);
        }
        if self.init_order.len() == 0 {
            if self.space < ACCOUNT_BASE_LEN {
                return Err(TokenExtensionError::InvalidExtensionType);
            }
        } else {
            let needed = crate::kinds::required_space(RecordKind::TokenAccount, &self.init_order);
            if needed > self.space {
                return Err(TokenExtensionError::InvalidExtensionType);
            }
        }
        self.base_initialized = true;
        self.owner = owner;
        self.mint = mint;
        Ok(())
    }
}

} // verus!
