//! The command line of a node, before it is written out.

use crate::config::{Context, MultichainConfig, PresignatureConfig, TripleConfig};
use crate::docker::text_view;
use crate::keys::{encode_hex, hex_text, hex_value, law_hex_text_reads_back};
use crate::node::Node;
use vstd::prelude::*;

verus! {

/// Where a node reads the blocks of the chain.
#[derive(Debug, PartialEq, Eq)]
pub struct IndexerOptions {
    pub s3_bucket: String,
    pub s3_region: String,
    pub s3_url: Option<String>,
    pub start_block_height: u64,
}

/// An [`IndexerOptions`] with its texts as sequences.
#[verifier::ext_equal]
pub struct IndexerOptionsView {
    pub s3_bucket: Seq<char>,
    pub s3_region: Seq<char>,
    pub s3_url: Option<Seq<char>>,
    pub start_block_height: u64,
}

/// The arguments that a node is started with.
#[derive(Debug, PartialEq, Eq)]
pub struct StartArgs<O> {
    pub near_rpc: String,
    pub mpc_contract_id: String,
    pub account_id: String,
    pub account_sk: String,
    pub web_port: u16,
    pub cipher_pk: String,
    pub cipher_sk: String,
    pub sign_sk: Option<String>,
    pub indexer_options: IndexerOptions,
    pub my_address: Option<String>,
    pub storage_options: O,
    pub min_triples: usize,
    pub max_triples: usize,
    pub max_concurrent_introduction: usize,
    pub max_concurrent_generation: usize,
    pub min_presignatures: usize,
    pub max_presignatures: usize,
}

/// A [`StartArgs`] with its texts as sequences, all but the storage options.
#[verifier::ext_equal]
pub struct StartArgsView {
    pub near_rpc: Seq<char>,
    pub mpc_contract_id: Seq<char>,
    pub account_id: Seq<char>,
    pub account_sk: Seq<char>,
    pub web_port: u16,
    pub cipher_pk: Seq<char>,
    pub cipher_sk: Seq<char>,
    pub sign_sk: Option<Seq<char>>,
    pub indexer_options: IndexerOptionsView,
    pub my_address: Option<Seq<char>>,
    pub min_triples: usize,
    pub max_triples: usize,
    pub max_concurrent_introduction: usize,
    pub max_concurrent_generation: usize,
    pub min_presignatures: usize,
    pub max_presignatures: usize,
}

impl View for IndexerOptions {
    type V = IndexerOptionsView;

    open spec fn view(&self) -> IndexerOptionsView {
        IndexerOptionsView {
            s3_bucket: self.s3_bucket@,
            s3_region: self.s3_region@,
            s3_url: text_view(self.s3_url),
            start_block_height: self.start_block_height,
        }
    }
}

impl<O> View for StartArgs<O> {
    type V = StartArgsView;

    open spec fn view(&self) -> StartArgsView {
        StartArgsView {
            near_rpc: self.near_rpc@,
            mpc_contract_id: self.mpc_contract_id@,
            account_id: self.account_id@,
            account_sk: self.account_sk@,
            web_port: self.web_port,
            cipher_pk: self.cipher_pk@,
            cipher_sk: self.cipher_sk@,
            sign_sk: text_view(self.sign_sk),
            indexer_options: self.indexer_options@,
            my_address: text_view(self.my_address),
            min_triples: self.min_triples,
            max_triples: self.max_triples,
            max_concurrent_introduction: self.max_concurrent_introduction,
            max_concurrent_generation: self.max_concurrent_generation,
            min_presignatures: self.min_presignatures,
            max_presignatures: self.max_presignatures,
        }
    }
}

/// The arguments of a node with the given account, keys and settings.
pub open spec fn start_args<O>(
    ctx: Context<O>,
    account_id: Seq<char>,
    account_key: Seq<char>,
    sign_key: Seq<char>,
    cipher_pk: Seq<u8>,
    cipher_sk: Seq<u8>,
    cfg: MultichainConfig,
) -> StartArgsView {
    StartArgsView {
        near_rpc: ctx.lake_indexer.rpc_host_address@,
        mpc_contract_id: ctx.mpc_contract_id@,
        account_id,
        account_sk: account_key,
        web_port: Node::CONTAINER_PORT,
        cipher_pk: hex_text(cipher_pk),
        cipher_sk: hex_text(cipher_sk),
        sign_sk: Some(sign_key),
        indexer_options: IndexerOptionsView {
            s3_bucket: ctx.localstack.s3_bucket@,
            s3_region: ctx.localstack.s3_region@,
            s3_url: Some(ctx.localstack.s3_host_address@),
            start_block_height: 0,
        },
        my_address: None,
        min_triples: cfg.triple_cfg.min_triples,
        max_triples: cfg.triple_cfg.max_triples,
        max_concurrent_introduction: cfg.triple_cfg.max_concurrent_introduction,
        max_concurrent_generation: cfg.triple_cfg.max_concurrent_generation,
        min_presignatures: cfg.presig_cfg.min_presignatures,
        max_presignatures: cfg.presig_cfg.max_presignatures,
    }
}

impl<O: Clone> StartArgs<O> {
    /// Puts the arguments of a node together. The keys of the account and for signing are
    /// texts, the cipher keys are bytes that are written in hexadecimal.
    pub fn new(
        ctx: &Context<O>,
        account_id: &str,
        account_key: String,
        sign_key: String,
        cipher_pk: &Vec<u8>,
        cipher_sk: &Vec<u8>,
        cfg: &MultichainConfig,
    ) -> (r: StartArgs<O>)
        ensures
            r@ == start_args(
                *ctx,
                account_id@,
                account_key@,
                sign_key@,
                cipher_pk@,
                cipher_sk@,
                *cfg,
            ),
            cloned(ctx.storage_options, r.storage_options),
            r.near_rpc@ == ctx.lake_indexer.rpc_host_address@,
            r.mpc_contract_id@ == ctx.mpc_contract_id@,
            r.account_id@ == account_id@,
            r.account_sk@ == account_key@,
            r.web_port == 3000,
            r.cipher_pk@ == hex_text(cipher_pk@),
            r.cipher_sk@ == hex_text(cipher_sk@),
            r.sign_sk is Some,
            r.sign_sk->0@ == sign_key@,
            r.indexer_options.s3_bucket@ == ctx.localstack.s3_bucket@,
            r.indexer_options.s3_region@ == ctx.localstack.s3_region@,
            r.indexer_options.s3_url is Some,
            r.indexer_options.s3_url->0@ == ctx.localstack.s3_host_address@,
            r.indexer_options.start_block_height == 0,
            r.my_address is None,
            r.min_triples == cfg.triple_cfg.min_triples,
            r.max_triples == cfg.triple_cfg.max_triples,
            r.max_concurrent_introduction == cfg.triple_cfg.max_concurrent_introduction,
            r.max_concurrent_generation == cfg.triple_cfg.max_concurrent_generation,
            r.min_presignatures == cfg.presig_cfg.min_presignatures,
            r.max_presignatures == cfg.presig_cfg.max_presignatures,
    {
        StartArgs {
            near_rpc: ctx.lake_indexer.rpc_host_address.clone(),
            mpc_contract_id: ctx.mpc_contract_id.clone(),
            account_id: account_id.to_string(),
            account_sk: account_key,
            web_port: Node::CONTAINER_PORT,
            cipher_pk: encode_hex(cipher_pk.as_slice()),
            cipher_sk: encode_hex(cipher_sk.as_slice()),
            sign_sk: Some(sign_key),
            indexer_options: IndexerOptions {
                s3_bucket: ctx.localstack.s3_bucket.clone(),
                s3_region: ctx.localstack.s3_region.clone(),
                s3_url: Some(ctx.localstack.s3_host_address.clone()),
                start_block_height: 0,
            },
            my_address: None,
            storage_options: ctx.storage_options.clone(),
            min_triples: cfg.triple_cfg.min_triples,
            max_triples: cfg.triple_cfg.max_triples,
            max_concurrent_introduction: cfg.triple_cfg.max_concurrent_introduction,
            max_concurrent_generation: cfg.triple_cfg.max_concurrent_generation,
            min_presignatures: cfg.presig_cfg.min_presignatures,
            max_presignatures: cfg.presig_cfg.max_presignatures,
        }
    }
}

/// Every setting reaches the node under its own name.
pub proof fn law_settings_reach_the_node<O>(
    ctx: Context<O>,
    account_id: Seq<char>,
    account_key: Seq<char>,
    sign_key: Seq<char>,
    cipher_pk: Seq<u8>,
    cipher_sk: Seq<u8>,
    cfg: MultichainConfig,
)
    ensures
        ({
            let args = start_args(
                ctx,
                account_id,
                account_key,
                sign_key,
                cipher_pk,
                cipher_sk,
                cfg,
            );
            &&& args.min_triples == cfg.triple_cfg.min_triples
            &&& args.max_triples == cfg.triple_cfg.max_triples
            &&& args.max_concurrent_introduction == cfg.triple_cfg.max_concurrent_introduction
            &&& args.max_concurrent_generation == cfg.triple_cfg.max_concurrent_generation
            &&& args.min_presignatures == cfg.presig_cfg.min_presignatures
            &&& args.max_presignatures == cfg.presig_cfg.max_presignatures
        }),
{
}

/// A setting has a say in the argument of its own name and in no other.
pub proof fn law_settings_do_not_interfere<O>(
    ctx: Context<O>,
    account_id: Seq<char>,
    account_key: Seq<char>,
    sign_key: Seq<char>,
    cipher_pk: Seq<u8>,
    cipher_sk: Seq<u8>,
    cfg: MultichainConfig,
    value: usize,
)
    ensures
        ({
            let args = start_args(
                ctx,
                account_id,
                account_key,
                sign_key,
                cipher_pk,
                cipher_sk,
                cfg,
            );
            let t = cfg.triple_cfg;
            let p = cfg.presig_cfg;
            let with_triples = |t: TripleConfig|
                start_args(
                    ctx,
                    account_id,
                    account_key,
                    sign_key,
                    cipher_pk,
                    cipher_sk,
                    MultichainConfig { triple_cfg: t, presig_cfg: p },
                );
            let with_presignatures = |p: PresignatureConfig|
                start_args(
                    ctx,
                    account_id,
                    account_key,
                    sign_key,
                    cipher_pk,
                    cipher_sk,
                    MultichainConfig { triple_cfg: t, presig_cfg: p },
                );
            &&& with_triples(TripleConfig { min_triples: value, ..t }) == (StartArgsView {
                min_triples: value,
                ..args
            })
            &&& with_triples(TripleConfig { max_triples: value, ..t }) == (StartArgsView {
                max_triples: value,
                ..args
            })
            &&& with_triples(TripleConfig { max_concurrent_introduction: value, ..t }) == (
            StartArgsView { max_concurrent_introduction: value, ..args })
            &&& with_triples(TripleConfig { max_concurrent_generation: value, ..t }) == (
            StartArgsView { max_concurrent_generation: value, ..args })
            &&& with_presignatures(PresignatureConfig { min_presignatures: value, ..p }) == (
            StartArgsView { min_presignatures: value, ..args })
            &&& with_presignatures(PresignatureConfig { max_presignatures: value, ..p }) == (
            StartArgsView { max_presignatures: value, ..args })
        }),
{
}

/// The account and the keys reach the node under their own names: the account's id and key
/// and the signing key as they are, the cipher keys in hexadecimal.
pub proof fn law_account_and_keys_reach_the_node<O>(
    ctx: Context<O>,
    account_id: Seq<char>,
    account_key: Seq<char>,
    sign_key: Seq<char>,
    cipher_pk: Seq<u8>,
    cipher_sk: Seq<u8>,
    cfg: MultichainConfig,
)
    ensures
        ({
            let args = start_args(
                ctx,
                account_id,
                account_key,
                sign_key,
                cipher_pk,
                cipher_sk,
                cfg,
            );
            &&& args.account_id == account_id
            &&& args.account_sk == account_key
            &&& args.sign_sk == Some(sign_key)
            &&& args.cipher_pk == hex_text(cipher_pk)
            &&& args.cipher_sk == hex_text(cipher_sk)
        }),
{
}

/// A cipher key reads back from its argument, byte by byte.
pub proof fn law_cipher_keys_read_back<O>(
    ctx: Context<O>,
    account_id: Seq<char>,
    account_key: Seq<char>,
    sign_key: Seq<char>,
    cipher_pk: Seq<u8>,
    cipher_sk: Seq<u8>,
    cfg: MultichainConfig,
    i: int,
)
    ensures
        ({
            let args = start_args(
                ctx,
                account_id,
                account_key,
                sign_key,
                cipher_pk,
                cipher_sk,
                cfg,
            );
            &&& args.cipher_pk.len() == 2 * cipher_pk.len()
            &&& args.cipher_sk.len() == 2 * cipher_sk.len()
            &&& 0 <= i < cipher_pk.len() ==> cipher_pk[i] == 16 * hex_value(args.cipher_pk[2 * i])
                + hex_value(args.cipher_pk[2 * i + 1])
            &&& 0 <= i < cipher_sk.len() ==> cipher_sk[i] == 16 * hex_value(args.cipher_sk[2 * i])
                + hex_value(args.cipher_sk[2 * i + 1])
        }),
{
    law_hex_text_reads_back(cipher_pk);
    law_hex_text_reads_back(cipher_sk);
}

/// The account and the keys have a say in their own arguments and in no others.
pub proof fn law_account_and_keys_do_not_interfere<O>(
    ctx: Context<O>,
    account_id: Seq<char>,
    account_key: Seq<char>,
    sign_key: Seq<char>,
    cipher_pk: Seq<u8>,
    cipher_sk: Seq<u8>,
    cfg: MultichainConfig,
    other_account_id: Seq<char>,
    other_account_key: Seq<char>,
    other_sign_key: Seq<char>,
    other_cipher_pk: Seq<u8>,
    other_cipher_sk: Seq<u8>,
)
    ensures
        start_args(
            ctx,
            other_account_id,
            other_account_key,
            other_sign_key,
            other_cipher_pk,
            other_cipher_sk,
            cfg,
        ) == (StartArgsView {
            account_id: other_account_id,
            account_sk: other_account_key,
            sign_sk: Some(other_sign_key),
            cipher_pk: hex_text(other_cipher_pk),
            cipher_sk: hex_text(other_cipher_sk),
            ..start_args(ctx, account_id, account_key, sign_key, cipher_pk, cipher_sk, cfg)
        }),
{
}

/// A node is pointed at what it is launched against: the RPC server and the store as the
/// host reaches them, the bucket and the region of the store, and the contract. It serves
/// the port of all nodes, reads the chain from its first block and is told no address of
/// its own.
pub proof fn law_node_is_pointed_at_its_context<O>(
    ctx: Context<O>,
    account_id: Seq<char>,
    account_key: Seq<char>,
    sign_key: Seq<char>,
    cipher_pk: Seq<u8>,
    cipher_sk: Seq<u8>,
    cfg: MultichainConfig,
)
    ensures
        ({
            let args = start_args(
                ctx,
                account_id,
                account_key,
                sign_key,
                cipher_pk,
                cipher_sk,
                cfg,
            );
            &&& args.near_rpc == ctx.lake_indexer.rpc_host_address@
            &&& args.mpc_contract_id == ctx.mpc_contract_id@
            &&& args.indexer_options.s3_bucket == ctx.localstack.s3_bucket@
            &&& args.indexer_options.s3_region == ctx.localstack.s3_region@
            &&& args.indexer_options.s3_url == Some(ctx.localstack.s3_host_address@)
            &&& args.indexer_options.start_block_height == 0
            &&& args.web_port == 3000
            &&& args.my_address is None
        }),
{
}

/// Arguments are seen as they are, each under its own name.
pub proof fn law_arguments_are_seen_as_they_are<O>(args: StartArgs<O>)
    ensures
        args@.near_rpc == args.near_rpc@,
        args@.mpc_contract_id == args.mpc_contract_id@,
        args@.account_id == args.account_id@,
        args@.account_sk == args.account_sk@,
        args@.web_port == args.web_port,
        args@.cipher_pk == args.cipher_pk@,
        args@.cipher_sk == args.cipher_sk@,
        args@.sign_sk is Some <==> args.sign_sk is Some,
        args.sign_sk matches Some(key) ==> args@.sign_sk == Some(key@),
        args@.indexer_options.s3_bucket == args.indexer_options.s3_bucket@,
        args@.indexer_options.s3_region == args.indexer_options.s3_region@,
        args@.indexer_options.s3_url is Some <==> args.indexer_options.s3_url is Some,
        args.indexer_options.s3_url matches Some(url) ==> args@.indexer_options.s3_url == Some(
            url@,
        ),
        args@.indexer_options.start_block_height == args.indexer_options.start_block_height,
        args@.my_address is Some <==> args.my_address is Some,
        args.my_address matches Some(address) ==> args@.my_address == Some(address@),
        args@.min_triples == args.min_triples,
        args@.max_triples == args.max_triples,
        args@.max_concurrent_introduction == args.max_concurrent_introduction,
        args@.max_concurrent_generation == args.max_concurrent_generation,
        args@.min_presignatures == args.min_presignatures,
        args@.max_presignatures == args.max_presignatures,
{
}

} // verus!
