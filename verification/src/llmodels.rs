//! The model list as clients are shown it: one description and one data
//! record per model.

use crate::text::{duplicate_texts, texts_view};
use vstd::prelude::*;
use vstd::string::*;

verus! {

/// Published facts about a model.
#[derive(Debug, Clone, Copy, PartialEq, Eq, Structural)]
pub struct DataMeta {
    pub vocab_type: u8,
    pub n_vocab: u64,
    pub n_ctx_train: u64,
    pub n_embd: u64,
    pub n_params: u64,
    pub size: u64,
}

/// Format and family of a model.
#[derive(Debug, Clone)]
pub struct ModelDetails {
    pub parent_model: String,
    pub format: String,
    pub family: String,
    pub families: Vec<String>,
    pub parameter_size: String,
    pub quantization_level: String,
}

/// Mathematical model of [`ModelDetails`].
pub ghost struct DetailsModel {
    pub parent_model: Seq<char>,
    pub format: Seq<char>,
    pub family: Seq<char>,
    pub families: Seq<Seq<char>>,
    pub parameter_size: Seq<char>,
    pub quantization_level: Seq<char>,
}

impl View for ModelDetails {
    type V = DetailsModel;

    open spec fn view(&self) -> DetailsModel {
        DetailsModel {
            parent_model: self.parent_model@,
            format: self.format@,
            family: self.family@,
            families: texts_view(self.families@),
            parameter_size: self.parameter_size@,
            quantization_level: self.quantization_level@,
        }
    }
}

impl ModelDetails {
    /// A copy equal by value.
    pub fn duplicate(&self) -> (r: Self)
        ensures
            r@ == self@,
    {
        ModelDetails {
            parent_model: self.parent_model.clone(),
            format: self.format.clone(),
            family: self.family.clone(),
            families: duplicate_texts(&self.families),
            parameter_size: self.parameter_size.clone(),
            quantization_level: self.quantization_level.clone(),
        }
    }
}

/// A model as its owner describes it.
#[derive(Debug, Clone)]
pub struct Model {
    pub name: String,
    pub model: String,
    pub modified_at: String,
    pub size: String,
    pub digest: String,
    pub description: String,
    pub tags: Vec<String>,
    pub capabilities: Vec<String>,
    pub parameters: String,
    pub details: ModelDetails,
}

/// Mathematical model of [`Model`].
pub ghost struct ModelModel {
    pub name: Seq<char>,
    pub model: Seq<char>,
    pub modified_at: Seq<char>,
    pub size: Seq<char>,
    pub digest: Seq<char>,
    pub description: Seq<char>,
    pub tags: Seq<Seq<char>>,
    pub capabilities: Seq<Seq<char>>,
    pub parameters: Seq<char>,
    pub details: DetailsModel,
}

impl View for Model {
    type V = ModelModel;

    open spec fn view(&self) -> ModelModel {
        ModelModel {
            name: self.name@,
            model: self.model@,
            modified_at: self.modified_at@,
            size: self.size@,
            digest: self.digest@,
            description: self.description@,
            tags: texts_view(self.tags@),
            capabilities: texts_view(self.capabilities@),
            parameters: self.parameters@,
            details: self.details@,
        }
    }
}

/// A model as it is listed.
#[derive(Debug, Clone)]
pub struct InternalModel {
    pub name: String,
    pub model: String,
    pub modified_at: String,
    pub size: String,
    pub digest: String,
    pub kind: String,
    pub description: String,
    pub tags: Vec<String>,
    pub capabilities: Vec<String>,
    pub parameters: String,
    pub details: ModelDetails,
}

/// Mathematical model of [`InternalModel`].
pub ghost struct InternalModelModel {
    pub name: Seq<char>,
    pub model: Seq<char>,
    pub modified_at: Seq<char>,
    pub size: Seq<char>,
    pub digest: Seq<char>,
    pub kind: Seq<char>,
    pub description: Seq<char>,
    pub tags: Seq<Seq<char>>,
    pub capabilities: Seq<Seq<char>>,
    pub parameters: Seq<char>,
    pub details: DetailsModel,
}

impl View for InternalModel {
    type V = InternalModelModel;

    open spec fn view(&self) -> InternalModelModel {
        InternalModelModel {
            name: self.name@,
            model: self.model@,
            modified_at: self.modified_at@,
            size: self.size@,
            digest: self.digest@,
            kind: self.kind@,
            description: self.description@,
            tags: texts_view(self.tags@),
            capabilities: texts_view(self.capabilities@),
            parameters: self.parameters@,
            details: self.details@,
        }
    }
}

/// The data record of a model as its owner gives it.
#[derive(Debug, Clone)]
pub struct Data {
    pub id: String,
    pub created: u64,
    pub meta: DataMeta,
}

/// The data record of a model as it is listed.
#[derive(Debug, Clone)]
pub struct InternalData {
    pub id: String,
    pub object: String,
    pub created: u64,
    pub owned_by: String,
    pub meta: DataMeta,
}

/// Mathematical model of [`InternalData`].
pub ghost struct InternalDataModel {
    pub id: Seq<char>,
    pub object: Seq<char>,
    pub created: u64,
    pub owned_by: Seq<char>,
    pub meta: DataMeta,
}

impl View for InternalData {
    type V = InternalDataModel;

    open spec fn view(&self) -> InternalDataModel {
        InternalDataModel {
            id: self.id@,
            object: self.object@,
            created: self.created,
            owned_by: self.owned_by@,
            meta: self.meta,
        }
    }
}

/// What a list of listed models stands for.
pub open spec fn models_view(v: Seq<InternalModel>) -> Seq<InternalModelModel> {
    Seq::new(v.len(), |i: int| v[i]@)
}

/// What a list of listed data records stands for.
pub open spec fn data_view(v: Seq<InternalData>) -> Seq<InternalDataModel> {
    Seq::new(v.len(), |i: int| v[i]@)
}

/// How a described model is listed: as it is, marked as a model.
pub open spec fn listed_model(m: ModelModel) -> InternalModelModel {
    InternalModelModel {
        kind: "model"@,
        name: m.name,
        model: m.model,
        modified_at: m.modified_at,
        size: m.size,
        digest: m.digest,
        description: m.description,
        tags: m.tags,
        capabilities: m.capabilities,
        parameters: m.parameters,
        details: m.details,
    }
}

/// How a data record is listed: as it is, marked as a model and with its
/// owner.
pub open spec fn listed_data(id: Seq<char>, created: u64, meta: DataMeta) -> InternalDataModel {
    InternalDataModel { id, object: "model"@, created, owned_by: "Mai-Server"@, meta }
}

impl InternalModel {
    /// Lists a described model.
    pub fn from_model(creator: Model) -> (m: InternalModel)
        ensures
            m@ == listed_model(creator@),
    {
        InternalModel {
            kind: String::from_str("model"),
            name: creator.name,
            model: creator.model,
            modified_at: creator.modified_at,
            size: creator.size,
            digest: creator.digest,
            description: creator.description,
            tags: creator.tags,
            capabilities: creator.capabilities,
            parameters: creator.parameters,
            details: creator.details,
        }
    }
}

impl InternalData {
    /// Lists a data record.
    pub fn from_data(data: Data) -> (d: InternalData)
        ensures
            d@ == listed_data(data.id@, data.created, data.meta),
    {
        InternalData {
            id: data.id,
            object: String::from_str("model"),
            created: data.created,
            owned_by: String::from_str("Mai-Server"),
            meta: data.meta,
        }
    }
}

/// A list of models.
#[derive(Debug, Clone)]
pub struct Llmodels {
    models: Vec<InternalModel>,
    object: String,
    data: Vec<InternalData>,
}

/// Mathematical model of a list of models.
pub ghost struct ListModel {
    pub models: Seq<InternalModelModel>,
    pub object: Seq<char>,
    pub data: Seq<InternalDataModel>,
}

impl View for Llmodels {
    type V = ListModel;

    closed spec fn view(&self) -> ListModel {
        ListModel {
            models: models_view(self.models@),
            object: self.object@,
            data: data_view(self.data@),
        }
    }
}

impl Llmodels {
    /// An empty list.
    pub fn new() -> (list: Llmodels)
        ensures
            list@ == (ListModel { models: Seq::empty(), object: "list"@, data: Seq::empty() }),
    {
        let list = Llmodels { models: Vec::new(), object: String::from_str("list"), data: Vec::new() };
        assert(models_view(list.models@) =~= Seq::empty());
        assert(data_view(list.data@) =~= Seq::empty());
        list
    }

    /// Appends a model and its data record.
    pub fn add(&mut self, model: Model, data: Data)
        ensures
            final(self)@ == (ListModel {
                models: old(self)@.models.push(listed_model(model@)),
                object: old(self)@.object,
                data: old(self)@.data.push(listed_data(data.id@, data.created, data.meta)),
            }),
    {
        let ghost before = self@;
        self.models.push(InternalModel::from_model(model));
        self.data.push(InternalData::from_data(data));
        assert(models_view(self.models@) =~= before.models.push(listed_model(model@)));
        assert(data_view(self.data@) =~= before.data.push(
            listed_data(data.id@, data.created, data.meta),
        ));
    }

    /// The listed models.
    pub fn models(&self) -> (v: &Vec<InternalModel>)
        ensures
            models_view(v@) == self@.models,
    {
        &self.models
    }

    /// The listed data records.
    pub fn data(&self) -> (v: &Vec<InternalData>)
        ensures
            data_view(v@) == self@.data,
    {
        &self.data
    }

    /// The kind of object this is.
    pub fn object(&self) -> (s: &String)
        ensures
            s@ == self@.object,
    {
        &self.object
    }
}

} // verus!
