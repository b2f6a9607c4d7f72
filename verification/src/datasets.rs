//! The capabilities that every dataset kind implements.

use crate::error::CollectError;
use crate::schema::{Datatype, Schemas, Table};
use vstd::prelude::*;

verus! {

/// What a dataset kind says of itself.
pub trait Dataset {
    /// The kind under which the dataset's schema is registered.
    spec fn datatype() -> Datatype;

    /// The name of the dataset.
    fn name() -> (name: &'static str)
        ensures
            name@ == Self::datatype().dataset_name(),
    ;

    /// The columns that the dataset is sorted by when nothing else is asked.
    spec fn sort_columns() -> Seq<Seq<char>>;

    /// The columns that the dataset is sorted by when nothing else is asked.
    fn default_sort() -> (columns: Vec<String>)
        ensures
            columns@.len() == Self::sort_columns().len(),
            forall|i: int|
                0 <= i < columns@.len() ==> (#[trigger] columns@[i])@ == Self::sort_columns()[i],
    ;
}

/// Collecting a dataset for one block: turning the raw response into rows.
pub trait CollectByBlock {
    /// The raw response of the node for one block.
    type Response;

    /// The column store that the rows are written to.
    type Columns: View;

    /// The kind under which the dataset's schema is registered.
    spec fn kind() -> Datatype;

    /// Whether the row counter of a store with contents `before` can take
    /// the rows of `response`.
    spec fn has_room(response: &Self::Response, before: <Self::Columns as View>::V) -> bool;

    /// The contents of a store that held `before` after the rows of
    /// `response` were emitted under `schema`.
    spec fn emitted(
        response: &Self::Response,
        schema: Table,
        before: <Self::Columns as View>::V,
    ) -> <Self::Columns as View>::V;

    /// Whether a store with contents `contents` is in step with `schema`:
    /// each column as long as the row counter where the schema asks for it,
    /// and empty where it does not.
    spec fn in_step(contents: <Self::Columns as View>::V, schema: Table) -> bool;

    /// Whether the row counter of `columns` can take the rows of `response`.
    fn fits(response: &Self::Response, columns: &Self::Columns) -> (fits: bool)
        ensures
            fits == Self::has_room(response, columns@),
    ;

    /// Writes the rows of `response` to `columns`: one count and one value in
    /// each wanted column per row. Fails, and writes nothing, where no
    /// schema is registered for the dataset.
    fn transform(
        response: Self::Response,
        columns: &mut Self::Columns,
        schemas: &Schemas,
    ) -> (result: Result<(), CollectError>)
        requires
            Self::has_room(&response, old(columns)@),
        ensures
            match schemas.lookup(Self::kind()) {
                Some(schema) => result is Ok && final(columns)@ == Self::emitted(
                    &response,
                    schema,
                    old(columns)@,
                ) && (Self::in_step(old(columns)@, schema) ==> Self::in_step(
                    final(columns)@,
                    schema,
                )),
                None => result matches Err(CollectError::SchemaError(_)) && final(columns)@ == old(
                    columns,
                )@,
            },
    ;
}

/// Collecting a dataset for one transaction: turning the raw response into
/// rows.
pub trait CollectByTransaction {
    /// The raw response of the node for one transaction.
    type Response;

    /// The column store that the rows are written to.
    type Columns: View;

    /// The kind under which the dataset's schema is registered.
    spec fn kind() -> Datatype;

    /// Whether the row counter of a store with contents `before` can take
    /// the rows of `response`.
    spec fn has_room(response: &Self::Response, before: <Self::Columns as View>::V) -> bool;

    /// The contents of a store that held `before` after the rows of
    /// `response` were emitted under `schema`.
    spec fn emitted(
        response: &Self::Response,
        schema: Table,
        before: <Self::Columns as View>::V,
    ) -> <Self::Columns as View>::V;

    /// Whether a store with contents `contents` is in step with `schema`:
    /// each column as long as the row counter where the schema asks for it,
    /// and empty where it does not.
    spec fn in_step(contents: <Self::Columns as View>::V, schema: Table) -> bool;

    /// Whether the row counter of `columns` can take the rows of `response`.
    fn fits(response: &Self::Response, columns: &Self::Columns) -> (fits: bool)
        ensures
            fits == Self::has_room(response, columns@),
    ;

    /// Writes the rows of `response` to `columns`: one count and one value in
    /// each wanted column per row. Fails, and writes nothing, where no
    /// schema is registered for the dataset.
    fn transform(
        response: Self::Response,
        columns: &mut Self::Columns,
        schemas: &Schemas,
    ) -> (result: Result<(), CollectError>)
        requires
            Self::has_room(&response, old(columns)@),
        ensures
            match schemas.lookup(Self::kind()) {
                Some(schema) => result is Ok && final(columns)@ == Self::emitted(
                    &response,
                    schema,
                    old(columns)@,
                ) && (Self::in_step(old(columns)@, schema) ==> Self::in_step(
                    final(columns)@,
                    schema,
                )),
                None => result matches Err(CollectError::SchemaError(_)) && final(columns)@ == old(
                    columns,
                )@,
            },
    ;
}

/// What the contract of `transform` by block says of the store after the
/// call and of the result, for a store that held `before`.
pub open spec fn transformed_by_block<D: CollectByBlock>(
    response: &D::Response,
    schemas: Schemas,
    before: <D::Columns as View>::V,
    after: <D::Columns as View>::V,
    result: Result<(), CollectError>,
) -> bool {
    match schemas.lookup(D::kind()) {
        Some(schema) => result is Ok && after == D::emitted(response, schema, before),
        None => result matches Err(CollectError::SchemaError(_)) && after == before,
    }
}

/// What the contract of `transform` by transaction says of the store after
/// the call and of the result, for a store that held `before`.
pub open spec fn transformed_by_transaction<D: CollectByTransaction>(
    response: &D::Response,
    schemas: Schemas,
    before: <D::Columns as View>::V,
    after: <D::Columns as View>::V,
    result: Result<(), CollectError>,
) -> bool {
    match schemas.lookup(D::kind()) {
        Some(schema) => result is Ok && after == D::emitted(response, schema, before),
        None => result matches Err(CollectError::SchemaError(_)) && after == before,
    }
}

/// Transforms the response of one block where the row counter of `columns`
/// can take its rows; where it cannot, nothing is written and there is no
/// result.
pub fn transform_by_block<D: CollectByBlock>(
    response: D::Response,
    columns: &mut D::Columns,
    schemas: &Schemas,
) -> (outcome: Option<Result<(), CollectError>>)
    ensures
        match outcome {
            Some(result) => D::has_room(&response, old(columns)@) && transformed_by_block::<D>(
                &response,
                *schemas,
                old(columns)@,
                final(columns)@,
                result,
            ),
            None => !D::has_room(&response, old(columns)@) && final(columns)@ == old(columns)@,
        },
{
    if D::fits(&response, columns) {
        Some(D::transform(response, columns, schemas))
    } else {
        None
    }
}

/// Transforms the response of one transaction where the row counter of
/// `columns` can take its rows; where it cannot, nothing is written and
/// there is no result.
pub fn transform_by_transaction<D: CollectByTransaction>(
    response: D::Response,
    columns: &mut D::Columns,
    schemas: &Schemas,
) -> (outcome: Option<Result<(), CollectError>>)
    ensures
        match outcome {
            Some(result) => D::has_room(&response, old(columns)@)
                && transformed_by_transaction::<D>(
                &response,
                *schemas,
                old(columns)@,
                final(columns)@,
                result,
            ),
            None => !D::has_room(&response, old(columns)@) && final(columns)@ == old(columns)@,
        },
{
    if D::fits(&response, columns) {
        Some(D::transform(response, columns, schemas))
    } else {
        None
    }
}

/// Transforming is repeatable: two stores that held the same, and were
/// handed the same response under the same schemas, hold the same
/// afterwards, and both calls succeed or both fail. For two fresh stores this
/// is the case of `before` being the empty store.
pub proof fn lemma_transform_by_block_repeats<D: CollectByBlock>(
    response: &D::Response,
    schemas: Schemas,
    before: <D::Columns as View>::V,
    first: <D::Columns as View>::V,
    first_result: Result<(), CollectError>,
    second: <D::Columns as View>::V,
    second_result: Result<(), CollectError>,
)
    requires
        transformed_by_block::<D>(response, schemas, before, first, first_result),
        transformed_by_block::<D>(response, schemas, before, second, second_result),
    ensures
        first == second,
        first_result is Ok <==> second_result is Ok,
{
}

/// Transforming is repeatable: two stores that held the same, and were
/// handed the same response under the same schemas, hold the same
/// afterwards, and both calls succeed or both fail. For two fresh stores this
/// is the case of `before` being the empty store.
pub proof fn lemma_transform_by_transaction_repeats<D: CollectByTransaction>(
    response: &D::Response,
    schemas: Schemas,
    before: <D::Columns as View>::V,
    first: <D::Columns as View>::V,
    first_result: Result<(), CollectError>,
    second: <D::Columns as View>::V,
    second_result: Result<(), CollectError>,
)
    requires
        transformed_by_transaction::<D>(response, schemas, before, first, first_result),
        transformed_by_transaction::<D>(response, schemas, before, second, second_result),
    ensures
        first == second,
        first_result is Ok <==> second_result is Ok,
{
}

} // verus!
