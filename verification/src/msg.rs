//! Messages to the contract, and its answers.

use vstd::prelude::*;

use crate::snip20::{Execute, ExecuteView};
use crate::state::{Snip20, Snip20View};
use crate::viewing_key::ViewingKey;

verus! {

/// How the contract is set up.
#[derive(Debug)]
pub struct InitMsg {
    pub reward_token: Snip20,
    pub inc_token: Snip20,
    pub pool_claim_block: u64,
    pub end_by_height: u64,
    pub viewing_key: String,
    pub prng_seed: Vec<u8>,
}

/// A message that changes the contract's state.
#[derive(Debug)]
#[allow(inconsistent_fields)]
pub enum HandleMsg {
    /// Unlocks tokens: the given amount, or all.
    Redeem { amount: Option<u128> },
    /// Sent by a token contract when it received tokens for this contract.
    Receive { sender: String, from: String, amount: u128, msg: Payload },
    /// Generates the sender's viewing key.
    CreateViewingKey { entropy: String, padding: Option<String> },
    /// Sets the sender's viewing key.
    SetViewingKey { key: String, padding: Option<String> },
    /// Locks the tokens that were sent along. Only to be handed on by a token contract.
    LockTokens,
    /// Adds the tokens that were sent along to the reward pool. Only to be handed on by a token
    /// contract.
    AddToRewardPool,
    /// Changes the token that is locked.
    UpdateIncentivizedToken { new_token: Snip20 },
    /// Changes the token that rewards are paid in.
    UpdateRewardToken { new_token: Snip20 },
    /// Pays the contract's whole reward balance out.
    ClaimRewardPool { recipient: Option<String> },
    /// Stops the contract.
    StopContract,
    /// Resumes the stopped contract.
    ResumeContract,
    /// Hands the contract over to another admin.
    ChangeAdmin { address: String },
}

/// What a token contract hands on.
#[derive(Debug)]
pub enum Payload {
    /// A message to this contract.
    Message(Box<HandleMsg>),
    /// Something else; the text says why it could not be read.
    Malformed(String),
}

/// How a request ended.
#[derive(Clone, Copy, PartialEq, Eq, Structural, Debug)]
pub enum ResponseStatus {
    Success,
    Failure,
}

/// The answer to a message that changed the contract's state.
#[derive(Debug)]
pub enum HandleAnswer {
    CreateViewingKey { key: ViewingKey },
    SetViewingKey { status: ResponseStatus },
    LockTokens { status: ResponseStatus },
    AddToRewardPool { status: ResponseStatus },
    UpdateIncentivizedToken { status: ResponseStatus },
    UpdateRewardToken { status: ResponseStatus },
    StopContract { status: ResponseStatus },
    ResumeContract { status: ResponseStatus },
    ChangeAdmin { status: ResponseStatus },
}

/// What a [`HandleAnswer`] holds.
pub enum HandleAnswerView {
    CreateViewingKey { key: Seq<char> },
    SetViewingKey { status: ResponseStatus },
    LockTokens { status: ResponseStatus },
    AddToRewardPool { status: ResponseStatus },
    UpdateIncentivizedToken { status: ResponseStatus },
    UpdateRewardToken { status: ResponseStatus },
    StopContract { status: ResponseStatus },
    ResumeContract { status: ResponseStatus },
    ChangeAdmin { status: ResponseStatus },
}

impl View for HandleAnswer {
    type V = HandleAnswerView;

    open spec fn view(&self) -> HandleAnswerView {
        match *self {
            HandleAnswer::CreateViewingKey { key } => HandleAnswerView::CreateViewingKey {
                key: key@,
            },
            HandleAnswer::SetViewingKey { status } => HandleAnswerView::SetViewingKey { status },
            HandleAnswer::LockTokens { status } => HandleAnswerView::LockTokens { status },
            HandleAnswer::AddToRewardPool { status } => HandleAnswerView::AddToRewardPool {
                status,
            },
            HandleAnswer::UpdateIncentivizedToken {
                status,
            } => HandleAnswerView::UpdateIncentivizedToken { status },
            HandleAnswer::UpdateRewardToken { status } => HandleAnswerView::UpdateRewardToken {
                status,
            },
            HandleAnswer::StopContract { status } => HandleAnswerView::StopContract { status },
            HandleAnswer::ResumeContract { status } => HandleAnswerView::ResumeContract { status },
            HandleAnswer::ChangeAdmin { status } => HandleAnswerView::ChangeAdmin { status },
        }
    }
}

/// A question about the contract's state.
#[derive(Debug)]
pub enum QueryMsg {
    QueryUnlockClaimHeight,
    QueryContractStatus,
    QueryRewardToken,
    QueryIncentivizedToken,
    QueryEndHeight,
    QueryLastRewardBlock,
    QueryRewards { address: String, key: String },
    QueryDeposit { address: String, key: String },
}

/// The answer to a question.
#[derive(Debug)]
#[allow(inconsistent_fields)]
pub enum QueryAnswer {
    QueryRewards { rewards: u128 },
    QueryDeposit { deposit: u128 },
    QueryUnlockClaimHeight { height: u128 },
    QueryContractStatus { is_stopped: bool },
    QueryRewardToken { token: Snip20 },
    QueryIncentivizedToken { token: Snip20 },
    QueryEndHeight { height: u64 },
    QueryError { msg: String },
}

/// What a [`QueryAnswer`] holds.
#[allow(inconsistent_fields)]
pub enum QueryAnswerView {
    QueryRewards { rewards: u128 },
    QueryDeposit { deposit: u128 },
    QueryUnlockClaimHeight { height: u128 },
    QueryContractStatus { is_stopped: bool },
    QueryRewardToken { token: Snip20View },
    QueryIncentivizedToken { token: Snip20View },
    QueryEndHeight { height: u64 },
    QueryError { msg: Seq<char> },
}

impl View for QueryAnswer {
    type V = QueryAnswerView;

    open spec fn view(&self) -> QueryAnswerView {
        match *self {
            QueryAnswer::QueryRewards { rewards } => QueryAnswerView::QueryRewards { rewards },
            QueryAnswer::QueryDeposit { deposit } => QueryAnswerView::QueryDeposit { deposit },
            QueryAnswer::QueryUnlockClaimHeight {
                height,
            } => QueryAnswerView::QueryUnlockClaimHeight { height },
            QueryAnswer::QueryContractStatus {
                is_stopped,
            } => QueryAnswerView::QueryContractStatus { is_stopped },
            QueryAnswer::QueryRewardToken { token } => QueryAnswerView::QueryRewardToken {
                token: token@,
            },
            QueryAnswer::QueryIncentivizedToken {
                token,
            } => QueryAnswerView::QueryIncentivizedToken { token: token@ },
            QueryAnswer::QueryEndHeight { height } => QueryAnswerView::QueryEndHeight { height },
            QueryAnswer::QueryError { msg } => QueryAnswerView::QueryError { msg: msg@ },
        }
    }
}

impl QueryMsg {
    /// Whether the question is about a user, and needs that user's viewing key.
    pub open spec fn is_authenticated(self) -> bool {
        self is QueryRewards || self is QueryDeposit
    }

    /// The user that the question is about.
    pub open spec fn about(self) -> Seq<char> {
        match self {
            QueryMsg::QueryRewards { address, .. } => address@,
            QueryMsg::QueryDeposit { address, .. } => address@,
            _ => Seq::empty(),
        }
    }

    /// The key that comes with the question.
    pub open spec fn offered_key(self) -> Seq<char> {
        match self {
            QueryMsg::QueryRewards { key, .. } => key@,
            QueryMsg::QueryDeposit { key, .. } => key@,
            _ => Seq::empty(),
        }
    }

    /// The user that a question is about, and the key that comes with it.
    pub fn get_validation_params(&self) -> (params: (&String, ViewingKey))
        requires
            self.is_authenticated(),
        ensures
            params.0@ == self.about(),
            params.1@ == self.offered_key(),
    {
        match self {
            QueryMsg::QueryRewards { address, key } => (address, ViewingKey(key.clone())),
            QueryMsg::QueryDeposit { address, key } => (address, ViewingKey(key.clone())),
            _ => vstd::pervasive::unreached(),
        }
    }
}

/// What the views of some calls are.
pub open spec fn views(messages: Seq<Execute>) -> Seq<ExecuteView> {
    messages.map_values(|message: Execute| message@)
}

/// What follows from setting the contract up: calls of other contracts.
#[derive(Debug)]
pub struct InitResponse {
    pub messages: Vec<Execute>,
}

/// What follows from a message: calls of other contracts, and an answer.
#[derive(Debug)]
pub struct HandleResponse {
    pub messages: Vec<Execute>,
    pub data: Option<HandleAnswer>,
}

/// What a [`HandleResponse`] holds.
pub struct HandleResponseView {
    pub messages: Seq<ExecuteView>,
    pub data: Option<HandleAnswerView>,
}

impl View for HandleResponse {
    type V = HandleResponseView;

    open spec fn view(&self) -> HandleResponseView {
        HandleResponseView {
            messages: views(self.messages@),
            data: match self.data {
                Some(answer) => Some(answer@),
                None => None,
            },
        }
    }
}

} // verus!
