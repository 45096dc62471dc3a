//! Settings shared by the nodes of a network.

use crate::lake_indexer::LakeIndexer;
use crate::localstack::LocalStack;
use vstd::prelude::*;

verus! {

/// How many triples a node keeps and makes.
#[derive(Clone, Copy, Debug, PartialEq, Eq, Structural)]
pub struct TripleConfig {
    pub min_triples: usize,
    pub max_triples: usize,
    pub max_concurrent_introduction: usize,
    pub max_concurrent_generation: usize,
}

/// How many presignatures a node keeps.
#[derive(Clone, Copy, Debug, PartialEq, Eq, Structural)]
pub struct PresignatureConfig {
    pub min_presignatures: usize,
    pub max_presignatures: usize,
}

/// The settings of the signing protocol.
#[derive(Clone, Copy, Debug, PartialEq, Eq, Structural)]
pub struct MultichainConfig {
    pub triple_cfg: TripleConfig,
    pub presig_cfg: PresignatureConfig,
}

/// What the containers of a network are launched against. The storage options `O` are
/// handed to the nodes as they are.
pub struct Context<O> {
    pub docker_network: String,
    pub mpc_contract_id: String,
    pub localstack: LocalStack,
    pub lake_indexer: LakeIndexer,
    pub storage_options: O,
}

/// What is kept of a node that was stopped, to start it again.
#[derive(Debug, PartialEq, Eq)]
pub struct NodeConfig {
    pub web_port: u16,
    pub account_id: String,
    pub account_sk: String,
    pub cipher_pk: Vec<u8>,
    pub cipher_sk: Vec<u8>,
    pub cfg: MultichainConfig,
}

/// A [`NodeConfig`] with its texts and keys as sequences.
#[verifier::ext_equal]
pub struct NodeConfigView {
    pub web_port: u16,
    pub account_id: Seq<char>,
    pub account_sk: Seq<char>,
    pub cipher_pk: Seq<u8>,
    pub cipher_sk: Seq<u8>,
    pub cfg: MultichainConfig,
}

impl View for NodeConfig {
    type V = NodeConfigView;

    open spec fn view(&self) -> NodeConfigView {
        NodeConfigView {
            web_port: self.web_port,
            account_id: self.account_id@,
            account_sk: self.account_sk@,
            cipher_pk: self.cipher_pk@,
            cipher_sk: self.cipher_sk@,
            cfg: self.cfg,
        }
    }
}

} // verus!
