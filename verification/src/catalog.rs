//! The model catalog: immutable model definitions, their expansion into one
//! entry per context-size tier, and the resolution of a requested alias.

use crate::alias::{spec_format, spec_parse, ContextSizeAwareAlias, ParsedAlias};
use crate::cli::SamplingValue;
use crate::context_size::{ContextSize, TIER_COUNT};
use crate::llamacpp::{ConfigArgsModel, LlamaCppConfigArgs};
use crate::on_off::{duplicate_opt_on_off, opt_on_off_view, OnOffModel, OnOffValue};
use crate::text::{duplicate_opt_text, duplicate_texts, opt_text_view, texts_view};
use vstd::prelude::*;
use vstd::string::*;

verus! {

/// The definition of a model: where it lives, what it can do, and the tunables it is launched with.
#[derive(Debug, Clone)]
pub struct ModelConfiguration {
    pub alias: String,
    pub model_path: String,
    pub max_ctx_size: ContextSize,
    pub vocab_type: u8,
    pub n_vocab: u64,
    pub n_ctx_train: u64,
    pub n_embd: u64,
    pub n_params: u64,
    pub size: u64,
    pub capabilities: Vec<String>,
    pub mmproj_path: Option<String>,
    pub prio: Option<u8>,
    pub n_gpu_layers: Option<u8>,
    pub flash_attn: Option<OnOffValue>,
    pub fit: Option<OnOffValue>,
    pub batch_size: Option<u16>,
    pub ubatch_size: Option<u16>,
    pub cache_type_v: Option<String>,
    pub cache_type_k: Option<String>,
    pub temp: Option<SamplingValue>,
    pub repeat_penalty: Option<SamplingValue>,
    pub presence_penalty: Option<SamplingValue>,
    pub seed: Option<u64>,
    pub min_p: Option<SamplingValue>,
    pub top_k: Option<u16>,
    pub top_p: Option<SamplingValue>,
    pub jinja: bool,
    pub no_mmap: bool,
    pub no_context_shift: bool,
    pub no_cont_batching: bool,
}

/// Mathematical model of [`ModelConfiguration`].
pub ghost struct DefinitionModel {
    pub alias: Seq<char>,
    pub model_path: Seq<char>,
    pub max_ctx_size: ContextSize,
    pub vocab_type: u8,
    pub n_vocab: u64,
    pub n_ctx_train: u64,
    pub n_embd: u64,
    pub n_params: u64,
    pub size: u64,
    pub capabilities: Seq<Seq<char>>,
    pub mmproj_path: Option<Seq<char>>,
    pub prio: Option<u8>,
    pub n_gpu_layers: Option<u8>,
    pub flash_attn: Option<OnOffModel>,
    pub fit: Option<OnOffModel>,
    pub batch_size: Option<u16>,
    pub ubatch_size: Option<u16>,
    pub cache_type_v: Option<Seq<char>>,
    pub cache_type_k: Option<Seq<char>>,
    pub temp: Option<SamplingValue>,
    pub repeat_penalty: Option<SamplingValue>,
    pub presence_penalty: Option<SamplingValue>,
    pub seed: Option<u64>,
    pub min_p: Option<SamplingValue>,
    pub top_k: Option<u16>,
    pub top_p: Option<SamplingValue>,
    pub jinja: bool,
    pub no_mmap: bool,
    pub no_context_shift: bool,
    pub no_cont_batching: bool,
}

impl View for ModelConfiguration {
    type V = DefinitionModel;

    open spec fn view(&self) -> DefinitionModel {
        DefinitionModel {
            alias: self.alias@,
            model_path: self.model_path@,
            max_ctx_size: self.max_ctx_size,
            vocab_type: self.vocab_type,
            n_vocab: self.n_vocab,
            n_ctx_train: self.n_ctx_train,
            n_embd: self.n_embd,
            n_params: self.n_params,
            size: self.size,
            capabilities: texts_view(self.capabilities@),
            mmproj_path: opt_text_view(self.mmproj_path),
            prio: self.prio,
            n_gpu_layers: self.n_gpu_layers,
            flash_attn: opt_on_off_view(self.flash_attn),
            fit: opt_on_off_view(self.fit),
            batch_size: self.batch_size,
            ubatch_size: self.ubatch_size,
            cache_type_v: opt_text_view(self.cache_type_v),
            cache_type_k: opt_text_view(self.cache_type_k),
            temp: self.temp,
            repeat_penalty: self.repeat_penalty,
            presence_penalty: self.presence_penalty,
            seed: self.seed,
            min_p: self.min_p,
            top_k: self.top_k,
            top_p: self.top_p,
            jinja: self.jinja,
            no_mmap: self.no_mmap,
            no_context_shift: self.no_context_shift,
            no_cont_batching: self.no_cont_batching,
        }
    }
}

/// What a list of definitions stands for.
pub open spec fn definitions_view(v: Seq<ModelConfiguration>) -> Seq<DefinitionModel> {
    Seq::new(v.len(), |i: int| v[i]@)
}

/// The arguments block a definition gives under an alias, a tier and a key.
pub open spec fn spec_args(
    d: DefinitionModel,
    alias: Seq<char>,
    ctx_size: Option<ContextSize>,
    api_key: Option<Seq<char>>,
) -> ConfigArgsModel {
    ConfigArgsModel {
        alias,
        api_key,
        ctx_size,
        model_path: d.model_path,
        mmproj_path: d.mmproj_path,
        prio: d.prio,
        n_gpu_layers: d.n_gpu_layers,
        jinja: d.jinja,
        no_mmap: d.no_mmap,
        flash_attn: d.flash_attn,
        fit: d.fit,
        batch_size: d.batch_size,
        ubatch_size: d.ubatch_size,
        cache_type_v: d.cache_type_v,
        cache_type_k: d.cache_type_k,
        no_context_shift: d.no_context_shift,
        no_cont_batching: d.no_cont_batching,
        min_p: d.min_p,
        temp: d.temp,
        repeat_penalty: d.repeat_penalty,
        presence_penalty: d.presence_penalty,
        seed: d.seed,
        top_k: d.top_k,
        top_p: d.top_p,
    }
}

impl ModelConfiguration {
    /// A copy equal by value.
    pub fn duplicate(&self) -> (r: Self)
        ensures
            r@ == self@,
    {
        ModelConfiguration {
            alias: self.alias.clone(),
            model_path: self.model_path.clone(),
            max_ctx_size: self.max_ctx_size,
            vocab_type: self.vocab_type,
            n_vocab: self.n_vocab,
            n_ctx_train: self.n_ctx_train,
            n_embd: self.n_embd,
            n_params: self.n_params,
            size: self.size,
            capabilities: duplicate_texts(&self.capabilities),
            mmproj_path: duplicate_opt_text(&self.mmproj_path),
            prio: self.prio,
            n_gpu_layers: self.n_gpu_layers,
            flash_attn: duplicate_opt_on_off(&self.flash_attn),
            fit: duplicate_opt_on_off(&self.fit),
            batch_size: self.batch_size,
            ubatch_size: self.ubatch_size,
            cache_type_v: duplicate_opt_text(&self.cache_type_v),
            cache_type_k: duplicate_opt_text(&self.cache_type_k),
            temp: self.temp,
            repeat_penalty: self.repeat_penalty,
            presence_penalty: self.presence_penalty,
            seed: self.seed,
            min_p: self.min_p,
            top_k: self.top_k,
            top_p: self.top_p,
            jinja: self.jinja,
            no_mmap: self.no_mmap,
            no_context_shift: self.no_context_shift,
            no_cont_batching: self.no_cont_batching,
        }
    }

    /// A copy under another alias.
    pub fn with_alias(&self, alias: String) -> (r: Self)
        ensures
            r@ == (DefinitionModel { alias: alias@, ..self@ }),
    {
        let mut r = self.duplicate();
        r.alias = alias;
        r
    }

    /// The arguments block for launching this model under `alias`.
    pub fn to_args(&self, alias: String, ctx_size: Option<ContextSize>, api_key: Option<String>) -> (a:
        LlamaCppConfigArgs)
        ensures
            a@ == spec_args(self@, alias@, ctx_size, opt_text_view(api_key)),
    {
        LlamaCppConfigArgs {
            alias,
            api_key,
            ctx_size,
            model_path: self.model_path.clone(),
            mmproj_path: duplicate_opt_text(&self.mmproj_path),
            prio: self.prio,
            n_gpu_layers: self.n_gpu_layers,
            jinja: self.jinja,
            no_mmap: self.no_mmap,
            flash_attn: duplicate_opt_on_off(&self.flash_attn),
            fit: duplicate_opt_on_off(&self.fit),
            batch_size: self.batch_size,
            ubatch_size: self.ubatch_size,
            cache_type_v: duplicate_opt_text(&self.cache_type_v),
            cache_type_k: duplicate_opt_text(&self.cache_type_k),
            no_context_shift: self.no_context_shift,
            no_cont_batching: self.no_cont_batching,
            min_p: self.min_p,
            temp: self.temp,
            repeat_penalty: self.repeat_penalty,
            presence_penalty: self.presence_penalty,
            seed: self.seed,
            top_k: self.top_k,
            top_p: self.top_p,
        }
    }
}

/// The entries a definition expands to: one per tier up to its largest, in
/// ascending order, each under the alias that names the tier.
pub open spec fn expand_one(d: DefinitionModel) -> Seq<DefinitionModel> {
    Seq::new(
        d.max_ctx_size.spec_rank() + 1,
        |r: int|
            DefinitionModel {
                alias: spec_format(d.alias, ContextSize::spec_from_rank(r as nat)),
                ..d
            },
    )
}

/// The expanded catalog: the entries of each definition, in the order of the
/// definitions.
pub open spec fn expand(defs: Seq<DefinitionModel>) -> Seq<DefinitionModel>
    decreases defs.len(),
{
    if defs.len() == 0 {
        Seq::empty()
    } else {
        expand(defs.drop_last()) + expand_one(defs.last())
    }
}

/// The first definition at or after position `from` whose alias is `key`.
pub open spec fn find_from(defs: Seq<DefinitionModel>, key: Seq<char>, from: int) -> Option<
    DefinitionModel,
>
    decreases defs.len() - from,
{
    if from < 0 || from >= defs.len() {
        None
    } else if defs[from].alias == key {
        Some(defs[from])
    } else {
        find_from(defs, key, from + 1)
    }
}

/// The arguments block a requested alias resolves to when it is looked up
/// as it is: that of the first definition under this alias, with no tier.
pub open spec fn spec_resolve_literal(
    defs: Seq<DefinitionModel>,
    api_key: Seq<char>,
    requested: Seq<char>,
) -> Option<ConfigArgsModel> {
    match find_from(defs, requested, 0) {
        Some(d) => Some(spec_args(d, requested, None, Some(api_key))),
        None => None,
    }
}

/// The arguments block a requested alias resolves to, if the catalog knows
/// the model. An alias that names a tier is looked up by its model alias
/// and, if the catalog holds that, launched at the tier; any other alias,
/// and one whose model alias the catalog does not hold, is looked up as it
/// is and launched with no tier. The block carries the requested alias
/// itself.
pub open spec fn spec_resolve(
    defs: Seq<DefinitionModel>,
    api_key: Seq<char>,
    requested: Seq<char>,
) -> Option<ConfigArgsModel> {
    match spec_parse(requested) {
        ParsedAlias::Hinted(model, tier) => match find_from(defs, model, 0) {
            Some(d) => Some(spec_args(d, requested, Some(tier), Some(api_key))),
            None => spec_resolve_literal(defs, api_key, requested),
        },
        _ => spec_resolve_literal(defs, api_key, requested),
    }
}

/// Whether some definition stands under an alias.
pub open spec fn holds_alias(defs: Seq<DefinitionModel>, key: Seq<char>) -> bool {
    exists|i: int| 0 <= i < defs.len() && (#[trigger] defs[i]).alias == key
}

/// The catalog: the definitions loaded at startup, and what every launch
/// shares.
#[derive(Debug, Clone)]
pub struct StaticModelLoader {
    static_model_configuration_list: Vec<ModelConfiguration>,
    api_key: String,
}

impl StaticModelLoader {
    /// The definitions, in the order they were loaded.
    pub closed spec fn definitions(&self) -> Seq<DefinitionModel> {
        definitions_view(self.static_model_configuration_list@)
    }

    /// The key handed to every launched backend.
    pub closed spec fn spec_api_key(&self) -> Seq<char> {
        self.api_key@
    }

    /// A catalog of the given definitions.
    pub fn new(definitions: Vec<ModelConfiguration>, api_key: String) -> (loader: Self)
        ensures
            loader.definitions() == definitions_view(definitions@),
            loader.spec_api_key() == api_key@,
    {
        StaticModelLoader { static_model_configuration_list: definitions, api_key }
    }

    /// Number of definitions.
    pub fn definition_count(&self) -> (n: usize)
        ensures
            n == self.definitions().len(),
    {
        self.static_model_configuration_list.len()
    }

    /// The definitions as they were loaded.
    pub fn get_static_model_configurations(&self) -> (list: Vec<ModelConfiguration>)
        ensures
            definitions_view(list@) == self.definitions(),
    {
        let mut list: Vec<ModelConfiguration> = Vec::new();
        let mut i: usize = 0;
        while i < self.static_model_configuration_list.len()
            invariant
                i <= self.static_model_configuration_list.len(),
                list.len() == i,
                definitions_view(list@) == self.definitions().take(i as int),
            decreases self.static_model_configuration_list.len() - i,
        {
            list.push(self.static_model_configuration_list[i].duplicate());
            assert(definitions_view(list@) =~= self.definitions().take(i + 1));
            i += 1;
        }
        assert(self.definitions().take(i as int) =~= self.definitions());
        list
    }

    /// The expanded catalog: for each definition, one entry per tier up to
    /// the definition's largest.
    pub fn get_model_configurations(&self) -> (list: Vec<ModelConfiguration>)
        ensures
            definitions_view(list@) == expand(self.definitions()),
    {
        let mut list: Vec<ModelConfiguration> = Vec::new();
        let mut i: usize = 0;
        assert(self.definitions().take(0) =~= Seq::<DefinitionModel>::empty());
        assert(definitions_view(list@) =~= expand(self.definitions().take(0)));
        while i < self.static_model_configuration_list.len()
            invariant
                i <= self.static_model_configuration_list.len(),
                definitions_view(list@) == expand(self.definitions().take(i as int)),
            decreases self.static_model_configuration_list.len() - i,
        {
            let base = &self.static_model_configuration_list[i];
            let top: usize = base.max_ctx_size.rank();
            let ghost done = definitions_view(list@);
            let mut r: usize = 0;
            assert(definitions_view(list@) =~= done + expand_one(base@).take(0));
            while r <= top
                invariant
                    r <= top + 1,
                    top == base.max_ctx_size.spec_rank(),
                    top < TIER_COUNT,
                    definitions_view(list@) == done + expand_one(base@).take(r as int),
                decreases top + 1 - r,
            {
                let tier = ContextSize::from_rank(r);
                let alias = ContextSizeAwareAlias::new(base.alias.clone(), tier).alias();
                let entry = base.with_alias(alias);
                let ghost before = definitions_view(list@);
                list.push(entry);
                proof {
                    assert(before.len() == done.len() + r);
                    assert(entry@ == expand_one(base@)[r as int]);
                    assert(definitions_view(list@) =~= before.push(entry@));
                    assert(expand_one(base@).take(r + 1) =~= expand_one(base@).take(
                        r as int,
                    ).push(entry@));
                    assert(definitions_view(list@) =~= done + expand_one(base@).take(r + 1));
                }
                r += 1;
            }
            proof {
                assert(expand_one(base@).take(r as int) =~= expand_one(base@));
                let next = self.definitions().take(i + 1);
                assert(next.drop_last() =~= self.definitions().take(i as int));
                assert(next.last() == base@);
            }
            i += 1;
        }
        assert(self.definitions().take(i as int) =~= self.definitions());
        list
    }

    /// The first definition whose alias is `key`.
    pub fn find(&self, key: &String) -> (found: Option<&ModelConfiguration>)
        ensures
            match found {
                Some(d) => find_from(self.definitions(), key@, 0) == Some(d@),
                None => find_from(self.definitions(), key@, 0) is None,
            },
    {
        let mut i: usize = 0;
        while i < self.static_model_configuration_list.len()
            invariant
                i <= self.static_model_configuration_list.len(),
                find_from(self.definitions(), key@, 0) == find_from(
                    self.definitions(),
                    key@,
                    i as int,
                ),
            decreases self.static_model_configuration_list.len() - i,
        {
            if self.static_model_configuration_list[i].alias == *key {
                return Some(&self.static_model_configuration_list[i]);
            }
            i += 1;
        }
        None
    }

    /// The arguments block for an alias looked up as it is, with no tier.
    pub fn get_literal_model_configuration(&self, alias: &str) -> (r: Result<
        LlamaCppConfigArgs,
        (),
    >)
        ensures
            match r {
                Ok(args) => spec_resolve_literal(self.definitions(), self.spec_api_key(), alias@)
                    == Some(args@),
                Err(_) => spec_resolve_literal(self.definitions(), self.spec_api_key(), alias@)
                    is None,
            },
    {
        match self.find(&String::from_str(alias)) {
            Some(definition) => Ok(
                definition.to_args(String::from_str(alias), None, Some(self.api_key.clone())),
            ),
            None => Err(()),
        }
    }

    /// Resolves a requested alias to the arguments block to launch with.
    /// An alias that names a tier is looked up by its model alias and
    /// launched at that tier; if the catalog does not hold the model alias,
    /// or the alias names no tier, the alias is looked up as it is and
    /// launched with no tier. Fails exactly if neither lookup finds a
    /// definition.
    pub fn get_model_configuration(&self, alias: &str) -> (r: Result<LlamaCppConfigArgs, ()>)
        ensures
            match r {
                Ok(args) => spec_resolve(self.definitions(), self.spec_api_key(), alias@) == Some(
                    args@,
                ),
                Err(_) => spec_resolve(self.definitions(), self.spec_api_key(), alias@) is None,
            },
    {
        match ContextSizeAwareAlias::parse(alias) {
            Ok(caa) => {
                let model_key = caa.model();
                match self.find(&model_key) {
                    Some(definition) => Ok(
                        definition.to_args(
                            String::from_str(alias),
                            Some(caa.context_size()),
                            Some(self.api_key.clone()),
                        ),
                    ),
                    None => self.get_literal_model_configuration(alias),
                }
            },
            Err(_) => self.get_literal_model_configuration(alias),
        }
    }
}

/// The tiers that are at most as large as `max`.
pub open spec fn tiers_up_to(max: ContextSize) -> Set<ContextSize> {
    Set::new(|t: ContextSize| t.spec_tokens() <= max.spec_tokens())
}

/// There are as many tiers up to a tier as its rank says, and one more.
pub proof fn lemma_tiers_up_to_count(max: ContextSize)
    ensures
        tiers_up_to(max).finite(),
        tiers_up_to(max).len() == max.spec_rank() + 1,
{
    let a = ContextSize::T8192;
    let b = ContextSize::T16384;
    let c = ContextSize::T32768;
    let d = ContextSize::T65536;
    let e = ContextSize::T131072;
    let f = ContextSize::T262144;
    match max {
        ContextSize::T8192 => {
            assert(tiers_up_to(max) =~= set![a]);
        },
        ContextSize::T16384 => {
            assert(tiers_up_to(max) =~= set![a, b]);
        },
        ContextSize::T32768 => {
            assert(tiers_up_to(max) =~= set![a, b, c]);
        },
        ContextSize::T65536 => {
            assert(tiers_up_to(max) =~= set![a, b, c, d]);
        },
        ContextSize::T131072 => {
            assert(tiers_up_to(max) =~= set![a, b, c, d, e]);
        },
        ContextSize::T262144 => {
            assert(tiers_up_to(max) =~= set![a, b, c, d, e, f]);
        },
    }
}

/// Catalog expansion: a definition whose largest tier is `M` expands to
/// exactly as many entries as there are tiers up to `M`; each tier up to `M`
/// has its entry, under the alias that names it; every entry is read back as
/// the definition's alias with a tier that is not above `M`, and differs from
/// the definition in its alias alone.
pub proof fn lemma_expansion_covers_tiers(d: DefinitionModel)
    ensures
        expand_one(d).len() == tiers_up_to(d.max_ctx_size).len(),
        forall|t: ContextSize|
            tiers_up_to(d.max_ctx_size).contains(t) ==> 0 <= t.spec_rank() < expand_one(d).len()
                && (#[trigger] expand_one(d)[t.spec_rank() as int]).alias == spec_format(
                d.alias,
                t,
            ),
        forall|r: int|
            0 <= r < expand_one(d).len() ==> {
                let tier = ContextSize::spec_from_rank(r as nat);
                &&& spec_parse((#[trigger] expand_one(d)[r]).alias) == ParsedAlias::Hinted(
                    d.alias,
                    tier,
                )
                &&& tier.spec_tokens() <= d.max_ctx_size.spec_tokens()
                &&& expand_one(d)[r] == (DefinitionModel { alias: expand_one(d)[r].alias, ..d })
            },
{
    lemma_tiers_up_to_count(d.max_ctx_size);
    assert forall|t: ContextSize| tiers_up_to(d.max_ctx_size).contains(t) implies 0
        <= t.spec_rank() < expand_one(d).len() && (#[trigger] expand_one(
        d,
    )[t.spec_rank() as int]).alias == spec_format(d.alias, t) by {
        crate::context_size::lemma_rank_orders_tokens(t, d.max_ctx_size);
    }
    assert forall|r: int| 0 <= r < expand_one(d).len() implies {
        let tier = ContextSize::spec_from_rank(r as nat);
        &&& spec_parse((#[trigger] expand_one(d)[r]).alias) == ParsedAlias::Hinted(d.alias, tier)
        &&& tier.spec_tokens() <= d.max_ctx_size.spec_tokens()
        &&& expand_one(d)[r] == (DefinitionModel { alias: expand_one(d)[r].alias, ..d })
    } by {
        let tier = ContextSize::spec_from_rank(r as nat);
        crate::alias::lemma_parse_format_roundtrip(d.alias, tier);
        crate::context_size::lemma_rank_orders_tokens(tier, d.max_ctx_size);
    }
}

/// Number of entries in the expanded catalog.
pub open spec fn expanded_count(defs: Seq<DefinitionModel>) -> nat
    decreases defs.len(),
{
    if defs.len() == 0 {
        0
    } else {
        expanded_count(defs.drop_last()) + tiers_up_to(defs.last().max_ctx_size).len()
    }
}

/// The expanded catalog holds, for each definition, as many entries as there
/// are tiers up to the definition's largest, and nothing else.
pub proof fn lemma_expanded_count(defs: Seq<DefinitionModel>)
    ensures
        expand(defs).len() == expanded_count(defs),
    decreases defs.len(),
{
    if defs.len() > 0 {
        lemma_expanded_count(defs.drop_last());
        lemma_tiers_up_to_count(defs.last().max_ctx_size);
    }
}

/// A definition that stands in the catalog is found under its alias, or an
/// earlier one with the same alias is.
pub proof fn lemma_find_succeeds(defs: Seq<DefinitionModel>, at: int, from: int)
    requires
        0 <= from <= at < defs.len(),
    ensures
        find_from(defs, defs[at].alias, from) is Some,
        find_from(defs, defs[at].alias, from)->0.alias == defs[at].alias,
    decreases at - from,
{
    if defs[from].alias != defs[at].alias {
        lemma_find_succeeds(defs, at, from + 1);
    }
}

/// What is found under an alias is a definition of the catalog that stands
/// under this alias.
pub proof fn lemma_found_is_held(defs: Seq<DefinitionModel>, key: Seq<char>, from: int) -> (at:
    int)
    requires
        0 <= from,
        find_from(defs, key, from) is Some,
    ensures
        from <= at < defs.len(),
        defs[at].alias == key,
        find_from(defs, key, from) == Some(defs[at]),
    decreases defs.len() - from,
{
    if defs[from].alias == key {
        from
    } else {
        lemma_found_is_held(defs, key, from + 1)
    }
}

/// A lookup succeeds exactly if some definition stands under the alias.
pub proof fn lemma_find_is_membership(defs: Seq<DefinitionModel>, key: Seq<char>)
    ensures
        find_from(defs, key, 0) is Some <==> holds_alias(defs, key),
{
    if find_from(defs, key, 0) is Some {
        let at = lemma_found_is_held(defs, key, 0);
        assert(defs[at].alias == key);
    }
    if holds_alias(defs, key) {
        let at = choose|i: int| 0 <= i < defs.len() && (#[trigger] defs[i]).alias == key;
        lemma_find_succeeds(defs, at, 0);
    }
}

/// Resolution fails exactly if no definition stands under the requested
/// alias as it is and, where the alias names a tier, none stands under its
/// model alias either.
pub proof fn lemma_resolution_fails_exactly(
    defs: Seq<DefinitionModel>,
    api_key: Seq<char>,
    requested: Seq<char>,
)
    ensures
        spec_resolve(defs, api_key, requested) is None <==> !holds_alias(defs, requested) && (
        match spec_parse(requested) {
            ParsedAlias::Hinted(model, _) => !holds_alias(defs, model),
            _ => true,
        }),
{
    lemma_find_is_membership(defs, requested);
    match spec_parse(requested) {
        ParsedAlias::Hinted(model, _) => {
            lemma_find_is_membership(defs, model);
        },
        _ => {},
    }
}

/// An alias that names a tier and whose model alias the catalog holds is
/// launched at that tier, with the tunables of the first definition under
/// the model alias.
pub proof fn lemma_tier_lookup_wins(
    defs: Seq<DefinitionModel>,
    api_key: Seq<char>,
    requested: Seq<char>,
    model: Seq<char>,
    tier: ContextSize,
)
    requires
        spec_parse(requested) == ParsedAlias::Hinted(model, tier),
        holds_alias(defs, model),
    ensures
        spec_resolve(defs, api_key, requested) == Some(
            spec_args(find_from(defs, model, 0)->0, requested, Some(tier), Some(api_key)),
        ),
{
    lemma_find_is_membership(defs, model);
}

/// An alias whose model alias the catalog does not hold, or which names no
/// tier, is looked up as it is: if a definition stands under it, it is
/// launched with no tier.
pub proof fn lemma_literal_fallback(
    defs: Seq<DefinitionModel>,
    api_key: Seq<char>,
    requested: Seq<char>,
)
    requires
        match spec_parse(requested) {
            ParsedAlias::Hinted(model, _) => !holds_alias(defs, model),
            _ => true,
        },
        holds_alias(defs, requested),
    ensures
        spec_resolve(defs, api_key, requested) == Some(
            spec_args(find_from(defs, requested, 0)->0, requested, None, Some(api_key)),
        ),
{
    lemma_find_is_membership(defs, requested);
    match spec_parse(requested) {
        ParsedAlias::Hinted(model, _) => {
            lemma_find_is_membership(defs, model);
        },
        _ => {},
    }
}

/// Every alias of the expanded catalog resolves: the alias of a definition
/// at a tier resolves to an arguments block that carries this alias and
/// this tier.
pub proof fn lemma_expanded_alias_resolves(
    defs: Seq<DefinitionModel>,
    at: int,
    tier: ContextSize,
    api_key: Seq<char>,
)
    requires
        0 <= at < defs.len(),
    ensures
        spec_resolve(defs, api_key, spec_format(defs[at].alias, tier)) is Some,
        spec_resolve(defs, api_key, spec_format(defs[at].alias, tier))->0.alias == spec_format(
            defs[at].alias,
            tier,
        ),
        spec_resolve(defs, api_key, spec_format(defs[at].alias, tier))->0.ctx_size == Some(tier),
        spec_resolve(defs, api_key, spec_format(defs[at].alias, tier))->0.api_key == Some(
            api_key,
        ),
{
    crate::alias::lemma_parse_format_roundtrip(defs[at].alias, tier);
    lemma_find_succeeds(defs, at, 0);
}

/// Every entry of the expanded catalog is the entry of one definition at
/// one tier up to that definition's largest.
pub proof fn lemma_expanded_entry_origin(defs: Seq<DefinitionModel>, k: int) -> (origin: (
    int,
    int,
))
    requires
        0 <= k < expand(defs).len(),
    ensures
        0 <= origin.0 < defs.len(),
        0 <= origin.1 < expand_one(defs[origin.0]).len(),
        expand(defs)[k] == expand_one(defs[origin.0])[origin.1],
        ContextSize::spec_from_rank(origin.1 as nat).spec_tokens()
            <= defs[origin.0].max_ctx_size.spec_tokens(),
    decreases defs.len(),
{
    let head = expand(defs.drop_last());
    if k < head.len() {
        lemma_expanded_entry_origin(defs.drop_last(), k)
    } else {
        let r = k - head.len();
        crate::context_size::lemma_rank_orders_tokens(
            ContextSize::spec_from_rank(r as nat),
            defs.last().max_ctx_size,
        );
        (defs.len() - 1, r)
    }
}

} // verus!
