//! The model list built from the catalog.

use crate::alias::ContextSizeAwareAlias;
use crate::catalog::{expand_one, DefinitionModel, ModelConfiguration};
use crate::context_size::{ContextSize, TIER_COUNT};
use crate::llmodels::{
    data_view, listed_data, models_view, DataMeta, DetailsModel, InternalData, InternalDataModel,
    InternalModel, InternalModelModel, ListModel, ModelDetails,
};
use crate::text::{duplicate_texts, join, join_strings, texts_view};
use vstd::prelude::*;
use vstd::string::*;

verus! {

/// The details listed for a model of the catalog.
pub open spec fn simple_details() -> DetailsModel {
    DetailsModel {
        parent_model: Seq::empty(),
        format: "gguf"@,
        family: Seq::empty(),
        families: seq![Seq::<char>::empty()],
        parameter_size: Seq::empty(),
        quantization_level: Seq::empty(),
    }
}

/// The listing of a model of the catalog: its alias as name and as model,
/// its capabilities, and nothing else filled in.
pub open spec fn simple_model(alias: Seq<char>, capabilities: Seq<Seq<char>>) -> InternalModelModel {
    InternalModelModel {
        name: alias,
        model: alias,
        modified_at: Seq::empty(),
        size: Seq::empty(),
        digest: Seq::empty(),
        kind: "model"@,
        description: Seq::empty(),
        tags: seq![Seq::<char>::empty()],
        capabilities,
        parameters: Seq::empty(),
        details: simple_details(),
    }
}

/// The published facts of a definition.
pub open spec fn meta_of(d: DefinitionModel) -> DataMeta {
    DataMeta {
        vocab_type: d.vocab_type,
        n_vocab: d.n_vocab,
        n_ctx_train: d.n_ctx_train,
        n_embd: d.n_embd,
        n_params: d.n_params,
        size: d.size,
    }
}

/// The listings of catalog entries, in order.
pub open spec fn entries_models(entries: Seq<DefinitionModel>) -> Seq<InternalModelModel> {
    Seq::new(entries.len(), |i: int| simple_model(entries[i].alias, entries[i].capabilities))
}

/// The data records of catalog entries, in order, all created at `created`.
pub open spec fn entries_data(entries: Seq<DefinitionModel>, created: u64) -> Seq<
    InternalDataModel,
> {
    Seq::new(
        entries.len(),
        |i: int| listed_data(entries[i].alias, created, meta_of(entries[i])),
    )
}

/// The names of listed models, in order.
pub open spec fn names_of(models: Seq<InternalModelModel>) -> Seq<Seq<char>> {
    Seq::new(models.len(), |i: int| models[i].name)
}

/// The smaller of two lengths.
pub open spec fn shorter(a: nat, b: nat) -> nat {
    if a <= b {
        a
    } else {
        b
    }
}

impl InternalModel {
    /// The listing of a model of the catalog.
    pub fn simple(alias: String, capabilities: Vec<String>) -> (m: InternalModel)
        ensures
            m@ == simple_model(alias@, texts_view(capabilities@)),
    {
        let mut tags: Vec<String> = Vec::new();
        tags.push(String::new());
        let mut families: Vec<String> = Vec::new();
        families.push(String::new());
        assert(texts_view(tags@) =~= seq![Seq::<char>::empty()]);
        assert(texts_view(families@) =~= seq![Seq::<char>::empty()]);
        InternalModel {
            name: alias.clone(),
            model: alias,
            modified_at: String::new(),
            size: String::new(),
            digest: String::new(),
            kind: String::from_str("model"),
            description: String::new(),
            tags,
            capabilities,
            parameters: String::new(),
            details: ModelDetails {
                parent_model: String::new(),
                format: String::from_str("gguf"),
                family: String::new(),
                families,
                parameter_size: String::new(),
                quantization_level: String::new(),
            },
        }
    }
}

impl InternalData {
    /// The data record of a model of the catalog.
    pub fn simple(alias: String, data_meta: DataMeta, created: u64) -> (d: InternalData)
        ensures
            d@ == listed_data(alias@, created, data_meta),
    {
        InternalData {
            id: alias,
            object: String::from_str("model"),
            created,
            owned_by: String::from_str("Mai-Server"),
            meta: data_meta,
        }
    }
}

/// The list of models served to clients.
#[derive(Debug, Clone)]
pub struct ModelList {
    models: Vec<InternalModel>,
    object: String,
    data: Vec<InternalData>,
}

impl View for ModelList {
    type V = ListModel;

    closed spec fn view(&self) -> ListModel {
        ListModel {
            models: models_view(self.models@),
            object: self.object@,
            data: data_view(self.data@),
        }
    }
}

impl Default for ModelList {
    fn default() -> (list: ModelList)
        ensures
            list@ == (ListModel { models: Seq::empty(), object: "list"@, data: Seq::empty() }),
    {
        ModelList::new()
    }
}

impl ModelList {
    /// An empty list.
    pub fn new() -> (list: ModelList)
        ensures
            list@ == (ListModel { models: Seq::empty(), object: "list"@, data: Seq::empty() }),
    {
        let list = ModelList { models: Vec::new(), object: String::from_str("list"), data: Vec::new() };
        assert(models_view(list.models@) =~= Seq::empty());
        assert(data_view(list.data@) =~= Seq::empty());
        list
    }

    /// An empty list. `capacity` is how many models room is set aside for; it
    /// changes nothing of what the list holds.
    pub fn with_capacity(capacity: usize) -> (list: ModelList)
        ensures
            list@ == (ListModel { models: Seq::empty(), object: "list"@, data: Seq::empty() }),
    {
        let list = ModelList {
            models: Vec::with_capacity(capacity),
            object: String::from_str("list"),
            data: Vec::with_capacity(capacity),
        };
        assert(models_view(list.models@) =~= Seq::empty());
        assert(data_view(list.data@) =~= Seq::empty());
        list
    }

    /// Appends the listing and the data record of one model.
    pub fn add_simple(
        &mut self,
        alias: String,
        capabilities: Vec<String>,
        data_meta: DataMeta,
        created: u64,
    )
        ensures
            final(self)@ == (ListModel {
                models: old(self)@.models.push(simple_model(alias@, texts_view(capabilities@))),
                object: old(self)@.object,
                data: old(self)@.data.push(listed_data(alias@, created, data_meta)),
            }),
    {
        let ghost before = self@;
        self.models.push(InternalModel::simple(alias.clone(), capabilities));
        self.data.push(InternalData::simple(alias, data_meta, created));
        assert(models_view(self.models@) =~= before.models.push(
            simple_model(alias@, texts_view(capabilities@)),
        ));
        assert(data_view(self.data@) =~= before.data.push(listed_data(alias@, created, data_meta)));
    }

    /// Appends one definition under its own alias.
    pub fn add_model_configuration(&mut self, model_configuration: &ModelConfiguration, created: u64)
        ensures
            final(self)@ == (ListModel {
                models: old(self)@.models.push(
                    simple_model(model_configuration@.alias, model_configuration@.capabilities),
                ),
                object: old(self)@.object,
                data: old(self)@.data.push(
                    listed_data(
                        model_configuration@.alias,
                        created,
                        meta_of(model_configuration@),
                    ),
                ),
            }),
    {
        let data_meta = DataMeta {
            vocab_type: model_configuration.vocab_type,
            n_vocab: model_configuration.n_vocab,
            n_embd: model_configuration.n_embd,
            n_ctx_train: model_configuration.n_ctx_train,
            n_params: model_configuration.n_params,
            size: model_configuration.size,
        };
        self.add_simple(
            model_configuration.alias.clone(),
            duplicate_texts(&model_configuration.capabilities),
            data_meta,
            created,
        );
    }

    /// Appends a definition once for each tier up to its largest, each time
    /// under the alias that names the tier.
    pub fn extend_from_domain_model_configuration(
        &mut self,
        domain_model_configuration: &ModelConfiguration,
        created: u64,
    )
        ensures
            final(self)@ == (ListModel {
                models: old(self)@.models + entries_models(
                    expand_one(domain_model_configuration@),
                ),
                object: old(self)@.object,
                data: old(self)@.data + entries_data(
                    expand_one(domain_model_configuration@),
                    created,
                ),
            }),
    {
        let ghost before = self@;
        let ghost entries = expand_one(domain_model_configuration@);
        let top: usize = domain_model_configuration.max_ctx_size.rank();
        let mut r: usize = 0;
        assert(self@.models =~= before.models + entries_models(entries).take(0));
        assert(self@.data =~= before.data + entries_data(entries, created).take(0));
        while r <= top
            invariant
                r <= top + 1,
                top == domain_model_configuration.max_ctx_size.spec_rank(),
                top < TIER_COUNT,
                entries == expand_one(domain_model_configuration@),
                self@.object == before.object,
                self@.models == before.models + entries_models(entries).take(r as int),
                self@.data == before.data + entries_data(entries, created).take(r as int),
            decreases top + 1 - r,
        {
            let tier = ContextSize::from_rank(r);
            let alias = ContextSizeAwareAlias::new(
                domain_model_configuration.alias.clone(),
                tier,
            ).alias();
            let entry = domain_model_configuration.with_alias(alias);
            assert(entry@ == entries[r as int]);
            self.add_model_configuration(&entry, created);
            proof {
                assert(entries_models(entries).take(r + 1) =~= entries_models(entries).take(
                    r as int,
                ).push(simple_model(entry@.alias, entry@.capabilities)));
                assert(entries_data(entries, created).take(r + 1) =~= entries_data(
                    entries,
                    created,
                ).take(r as int).push(listed_data(entry@.alias, created, meta_of(entry@))));
                assert(self@.models =~= before.models + entries_models(entries).take(r + 1));
                assert(self@.data =~= before.data + entries_data(entries, created).take(r + 1));
            }
            r += 1;
        }
        proof {
            assert(entries_models(entries).take(r as int) =~= entries_models(entries));
            assert(entries_data(entries, created).take(r as int) =~= entries_data(entries, created));
        }
    }

    /// Published facts and capabilities of each listed model, in order.
    pub fn as_list_of_meta_data_and_capabilities(&self) -> (list: Vec<(DataMeta, Vec<String>)>)
        ensures
            list.len() == shorter(self@.models.len(), self@.data.len()),
            forall|i: int|
                0 <= i < list.len() ==> (#[trigger] list[i]).0 == self@.data[i].meta && texts_view(
                    list[i].1@,
                ) == self@.models[i].capabilities,
    {
        let n: usize = if self.models.len() <= self.data.len() {
            self.models.len()
        } else {
            self.data.len()
        };
        let mut list: Vec<(DataMeta, Vec<String>)> = Vec::with_capacity(self.models.len());
        let mut i: usize = 0;
        while i < n
            invariant
                i <= n,
                n <= self.models.len(),
                n <= self.data.len(),
                list.len() == i,
                forall|j: int|
                    0 <= j < i ==> (#[trigger] list[j]).0 == self@.data[j].meta && texts_view(
                        list[j].1@,
                    ) == self@.models[j].capabilities,
            decreases n - i,
        {
            let capabilities = duplicate_texts(&self.models[i].capabilities);
            list.push((self.data[i].meta, capabilities));
            i += 1;
        }
        list
    }

    /// The names of the listed models, joined by commas.
    pub fn names(&self) -> (s: String)
        ensures
            s@ == join(names_of(self@.models), ","@),
    {
        let mut names: Vec<String> = Vec::new();
        let mut i: usize = 0;
        while i < self.models.len()
            invariant
                i <= self.models.len(),
                names.len() == i,
                texts_view(names@) == names_of(self@.models).take(i as int),
            decreases self.models.len() - i,
        {
            names.push(self.models[i].name.clone());
            assert(texts_view(names@) =~= names_of(self@.models).take(i + 1));
            i += 1;
        }
        assert(names_of(self@.models).take(i as int) =~= names_of(self@.models));
        join_strings(&names, ",")
    }

    /// The listed models.
    pub fn models(&self) -> (v: &Vec<InternalModel>)
        ensures
            models_view(v@) == self@.models,
    {
        &self.models
    }

    /// The listed data records.
    pub fn data(&self) -> (v: &Vec<InternalData>)
        ensures
            data_view(v@) == self@.data,
    {
        &self.data
    }

    /// The kind of object this is.
    pub fn object(&self) -> (s: &String)
        ensures
            s@ == self@.object,
    {
        &self.object
    }
}

} // verus!
