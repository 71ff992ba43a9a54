//! The GraphQL API's resolvers: what a document, a listing, the collections and the
//! database description look like. Document contents arrive already written as
//! JSON text.
use vstd::prelude::*;
use crate::text::{decimal, owned, push_decimal};

verus! {

/// A document as GraphQL returns it; its contents are JSON text.
#[derive(Debug)]
pub struct Document {
    pub id: String,
    pub collection: String,
    pub data: String,
    pub version: u64,
    pub created_at: String,
    pub updated_at: String,
}

/// A collection as GraphQL returns it.
#[derive(Debug)]
pub struct Collection {
    pub name: String,
    pub document_count: u64,
    pub size_bytes: u64,
}

/// The database as GraphQL describes it.
#[derive(Debug)]
pub struct DatabaseInfo {
    pub name: String,
    pub version: String,
    pub uptime: String,
    pub collections: Vec<Collection>,
}

/// Whether `d` is the document `id` of `collection` with contents `data`, at
/// version 1 and with no recorded times.
pub open spec fn is_document(d: Document, collection: Seq<char>, id: Seq<char>, data: Seq<char>) -> bool {
    &&& d.id@ == id
    &&& d.collection@ == collection
    &&& d.data@ == data
    &&& d.version == 1
    &&& d.created_at@ == "N/A"@
    &&& d.updated_at@ == "N/A"@
}

/// The description of the database: name, version, a ready status and no collections.
pub fn database_info() -> (info: DatabaseInfo)
    ensures
        info.name@ == "aerolithsDB"@,
        info.version@ == "1.0.0"@,
        info.uptime@ == "Production Ready"@,
        info.collections@.len() == 0,
{
    DatabaseInfo {
        name: owned("aerolithsDB"),
        version: owned("1.0.0"),
        uptime: owned("Production Ready"),
        collections: Vec::new(),
    }
}

/// The document `id` of `collection` once storage returned its contents as JSON
/// text (`None`: it was not found or could not be read).
pub fn document(collection: &str, id: &str, data: Option<String>) -> (d: Option<Document>)
    ensures
        match data {
            Some(text) => d matches Some(doc) && is_document(doc, collection@, id@, text@),
            None => d is None,
        },
{
    match data {
        Some(text) => Some(
            Document {
                id: owned(id),
                collection: owned(collection),
                data: text,
                version: 1,
                created_at: owned("N/A"),
                updated_at: owned("N/A"),
            },
        ),
        None => None,
    }
}

/// The documents of a listing of `collection`, from their contents as JSON text:
/// the `i`-th is named `doc_` and `i`.
pub fn documents(collection: &str, contents: Vec<String>) -> (docs: Vec<Document>)
    ensures
        docs@.len() == contents@.len(),
        forall|i: int|
            0 <= i < docs@.len() ==> is_document(
                #[trigger] docs@[i],
                collection@,
                "doc_"@ + decimal(i as nat),
                contents@[i]@,
            ),
{
    let mut docs: Vec<Document> = Vec::new();
    let mut i: usize = 0;
    while i < contents.len()
        invariant
            i <= contents@.len(),
            docs@.len() == i,
            forall|k: int|
                0 <= k < i ==> is_document(
                    #[trigger] docs@[k],
                    collection@,
                    "doc_"@ + decimal(k as nat),
                    contents@[k]@,
                ),
        decreases contents@.len() - i,
    {
        let mut id = owned("doc_");
        push_decimal(&mut id, i as u64);
        docs.push(
            Document {
                id,
                collection: owned(collection),
                data: contents[i].clone(),
                version: 1,
                created_at: owned("N/A"),
                updated_at: owned("N/A"),
            },
        );
        i = i + 1;
    }
    docs
}

/// The collections GraphQL lists: the one empty example collection.
pub fn collections() -> (cs: Vec<Collection>)
    ensures
        cs@.len() == 1,
        cs@[0].name@ == "example"@,
        cs@[0].document_count == 0,
        cs@[0].size_bytes == 0,
{
    let mut cs: Vec<Collection> = Vec::new();
    cs.push(Collection { name: owned("example"), document_count: 0, size_bytes: 0 });
    cs
}

} // verus!
