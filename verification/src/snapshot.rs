//! The whole content of the store as one document, to seed a new store and
//! to keep a copy of an old one.

use vstd::prelude::*;
use crate::employee::{EMPLOYEES, Employee, EmployeeRecord, EmployeeView};
use crate::product::{PRODUCTS, Product, ProductRecord, ProductView};
use crate::query::{Statement, insert_of};
use crate::record::OutOfRange;

verus! {

/// Every employee and every product of a store.
#[derive(Clone, Debug, PartialEq)]
pub struct StoreData {
    pub employees: Vec<Employee>,
    pub products: Vec<Product>,
}

/// Loads a snapshot into a store and takes one from it.
pub struct DBFiller;

impl DBFiller {
    /// Whether `statements` load `data`: one insertion for each employee, in
    /// the document's order, then one for each product.
    pub open spec fn loads(statements: Seq<Statement>, data: StoreData) -> bool {
        &&& statements.len() == data.employees@.len() + data.products@.len()
        &&& forall|i: int|
            0 <= i < data.employees@.len() ==> (#[trigger] statements[i])@ == insert_of(
                EMPLOYEES@,
                data.employees@[i]@.fields(),
            )
        &&& forall|j: int|
            0 <= j < data.products@.len() ==> (#[trigger] statements[data.employees@.len()
                + j])@ == insert_of(PRODUCTS@, data.products@[j]@.fields())
    }

    /// The statements that load a snapshot, to be run one after the other.
    /// The identifiers in the document are left out: the store assigns new
    /// ones.
    pub fn load_statements(data: &StoreData) -> (statements: Vec<Statement>)
        ensures
            DBFiller::loads(statements@, *data),
    {
        let mut statements: Vec<Statement> = Vec::new();
        let mut i: usize = 0;
        while i < data.employees.len()
            invariant
                i <= data.employees.len(),
                statements@.len() == i,
                forall|k: int|
                    0 <= k < i ==> (#[trigger] statements@[k])@ == insert_of(
                        EMPLOYEES@,
                        data.employees@[k]@.fields(),
                    ),
            decreases data.employees.len() - i,
        {
            statements.push(data.employees[i].insert_statement());
            i += 1;
        }
        let mut j: usize = 0;
        while j < data.products.len()
            invariant
                j <= data.products.len(),
                statements@.len() == data.employees@.len() + j,
                forall|k: int|
                    0 <= k < data.employees@.len() ==> (#[trigger] statements@[k])@ == insert_of(
                        EMPLOYEES@,
                        data.employees@[k]@.fields(),
                    ),
                forall|k: int|
                    0 <= k < j ==> (#[trigger] statements@[data.employees@.len() + k])@
                        == insert_of(PRODUCTS@, data.products@[k]@.fields()),
            decreases data.products.len() - j,
        {
            statements.push(data.products[j].insert_statement());
            j += 1;
        }
        statements
    }

    /// Whether a store is filled from the snapshot when the process starts:
    /// only a store that was not there before is.
    pub fn loads_at_start(store_existed: bool) -> (loads: bool)
        ensures
            loads == !store_existed,
    {
        !store_existed
    }

    /// Whether a snapshot is taken right after the start: it is after every
    /// load that succeeded, and not after one that failed.
    pub fn saves_after_load(loaded: bool) -> (saves: bool)
        ensures
            saves == loaded,
    {
        loaded
    }

    /// The filters that a snapshot is taken with: they ask for every
    /// employee and every product.
    pub fn save_filters() -> (filters: (Employee, Product))
        ensures
            filters.0@ == EmployeeView::empty(),
            filters.1@ == ProductView::empty(),
    {
        (Employee::new_empty(), Product::new_empty())
    }

    /// The snapshot of a store, from all the rows of its two tables. Where a
    /// row cannot be read there is no snapshot: the reason is that of the
    /// first such employee, or of the first such product where every
    /// employee can be read.
    pub fn snapshot(employees: &Vec<EmployeeRecord>, products: &Vec<ProductRecord>) -> (result:
        Result<StoreData, OutOfRange>)
        ensures
            match result {
                Ok(data) => {
                    &&& EmployeeRecord::read_as(employees@, data.employees@)
                    &&& ProductRecord::read_as(products@, data.products@)
                },
                Err(error) => {
                    ||| EmployeeRecord::refused_with(employees@, error)
                    ||| (exists|read: Seq<Employee>| EmployeeRecord::read_as(employees@, read))
                        && ProductRecord::refused_with(products@, error)
                },
            },
    {
        let read_employees = match Employee::from_records(employees) {
            Ok(read) => read,
            Err(error) => {
                return Err(error);
            },
        };
        let read_products = match Product::from_records(products) {
            Ok(read) => read,
            Err(error) => {
                return Err(error);
            },
        };
        Ok(StoreData { employees: read_employees, products: read_products })
    }
}

} // verus!
