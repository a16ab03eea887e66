//! Products: the entity, its statements and its stored form.

use vstd::prelude::*;
use crate::date::{Date, DateView};
use crate::laws::{
    lemma_empty_text_does_not_narrow, lemma_unset_filter_selects_every_row, searched, unset,
};
use crate::placeholders::{
    lemma_delete_placeholders, lemma_insert_placeholders, lemma_select_placeholders,
    lemma_update_placeholders, placeholders, plain, plain_columns,
};
use crate::query::{
    Statement, all_values, delete_sql, delete_statement, filter_values, insert_sql,
    insert_statement, present_values, select_sql, select_statement, update_of, update_sql,
    update_statement,
};
use crate::record::{
    Narrowed, OutOfRange, fits, flag_of, lemma_count_round_trip, lemma_flag_round_trip, narrow,
    narrowed, read_flag, stored_count, stored_flag,
};
use crate::schema::{
    Affinity, Column, ColumnView, Reference, ReferenceView, column_views, create_table,
    create_table_sql,
};
use crate::value::{
    Decimal, Field, FieldView, Kind, ValueView, copy_text, date_view, field_views, integral,
    text_view, widened,
};

verus! {

/// The table that holds the products.
pub const PRODUCTS: &'static str = "products";

/// A product of the shop. Every field is optional: a value with no field set
/// asks for every product when it is used as a filter, and changes nothing
/// when it is used as an update.
#[derive(Clone, Debug, PartialEq)]
pub struct Product {
    pub id: Option<u32>,
    pub name: Option<String>,
    pub category: Option<String>,
    pub quantity: Option<u32>,
    pub status: Option<bool>,
    pub bar_code: Option<i64>,
    pub cost_price: Option<Decimal>,
    pub sell_price: Option<Decimal>,
    pub description: Option<String>,
    pub brand: Option<String>,
    pub supplier: Option<String>,
    pub employee_id: Option<u32>,
    pub date_added: Option<Date>,
    pub date_remove: Option<Date>,
}

/// What a `Product` is.
pub struct ProductView {
    pub id: Option<u32>,
    pub name: Option<Seq<char>>,
    pub category: Option<Seq<char>>,
    pub quantity: Option<u32>,
    pub status: Option<bool>,
    pub bar_code: Option<i64>,
    pub cost_price: Option<Decimal>,
    pub sell_price: Option<Decimal>,
    pub description: Option<Seq<char>>,
    pub brand: Option<Seq<char>>,
    pub supplier: Option<Seq<char>>,
    pub employee_id: Option<u32>,
    pub date_added: Option<DateView>,
    pub date_remove: Option<DateView>,
}

impl View for Product {
    type V = ProductView;

    open spec fn view(&self) -> ProductView {
        ProductView {
            id: self.id,
            name: text_view(self.name),
            category: text_view(self.category),
            quantity: self.quantity,
            status: self.status,
            bar_code: self.bar_code,
            cost_price: self.cost_price,
            sell_price: self.sell_price,
            description: text_view(self.description),
            brand: text_view(self.brand),
            supplier: text_view(self.supplier),
            employee_id: self.employee_id,
            date_added: date_view(self.date_added),
            date_remove: date_view(self.date_remove),
        }
    }
}

impl ProductView {
    /// The product with no field set.
    pub open spec fn empty() -> ProductView {
        ProductView {
            id: None,
            name: None,
            category: None,
            quantity: None,
            status: None,
            bar_code: None,
            cost_price: None,
            sell_price: None,
            description: None,
            brand: None,
            supplier: None,
            employee_id: None,
            date_added: None,
            date_remove: None,
        }
    }

    /// The identifier as a column.
    pub open spec fn key(self) -> FieldView {
        FieldView::integer("id"@, widened(self.id))
    }

    /// The columns that hold the product's data, in the table's order. The
    /// name and the description are searched by containment.
    pub open spec fn fields(self) -> Seq<FieldView> {
        seq![
            FieldView::text("name"@, Kind::Substring, self.name),
            FieldView::text("category"@, Kind::Exact, self.category),
            FieldView::integer("quantity"@, widened(self.quantity)),
            FieldView::flag("status"@, self.status),
            FieldView::integer("bar_code"@, integral(self.bar_code)),
            FieldView::decimal("cost_price"@, self.cost_price),
            FieldView::decimal("sell_price"@, self.sell_price),
            FieldView::text("description"@, Kind::Substring, self.description),
            FieldView::text("brand"@, Kind::Exact, self.brand),
            FieldView::text("supplier"@, Kind::Exact, self.supplier),
            FieldView::integer("employee_id"@, widened(self.employee_id)),
            FieldView::date("date_added"@, self.date_added),
            FieldView::date("date_remove"@, self.date_remove),
        ]
    }

    /// The columns that a search looks at: the identifier, then the data.
    pub open spec fn filter_fields(self) -> Seq<FieldView> {
        seq![self.key()] + self.fields()
    }
}

impl Product {
    /// A product with the given fields.
    pub fn new(
        id_p: Option<u32>,
        name_p: Option<String>,
        category_p: Option<String>,
        quantity_p: Option<u32>,
        status_p: Option<bool>,
        bar_code_p: Option<i64>,
        cost_price_p: Option<Decimal>,
        sell_price_p: Option<Decimal>,
        description_p: Option<String>,
        brand_p: Option<String>,
        supplier_p: Option<String>,
        employee_id_p: Option<u32>,
        date_added_p: Option<Date>,
        date_remove_p: Option<Date>,
    ) -> (product: Product)
        ensures
            product == (Product {
                id: id_p,
                name: name_p,
                category: category_p,
                quantity: quantity_p,
                status: status_p,
                bar_code: bar_code_p,
                cost_price: cost_price_p,
                sell_price: sell_price_p,
                description: description_p,
                brand: brand_p,
                supplier: supplier_p,
                employee_id: employee_id_p,
                date_added: date_added_p,
                date_remove: date_remove_p,
            }),
    {
        Product {
            id: id_p,
            name: name_p,
            category: category_p,
            quantity: quantity_p,
            status: status_p,
            bar_code: bar_code_p,
            cost_price: cost_price_p,
            sell_price: sell_price_p,
            description: description_p,
            brand: brand_p,
            supplier: supplier_p,
            employee_id: employee_id_p,
            date_added: date_added_p,
            date_remove: date_remove_p,
        }
    }

    /// The product with no field set.
    pub fn new_empty() -> (product: Product)
        ensures
            product@ == ProductView::empty(),
    {
        Product {
            id: None,
            name: None,
            category: None,
            quantity: None,
            status: None,
            bar_code: None,
            cost_price: None,
            sell_price: None,
            description: None,
            brand: None,
            supplier: None,
            employee_id: None,
            date_added: None,
            date_remove: None,
        }
    }

    /// The same product under the identifier `id`, whatever identifier it had.
    pub fn with_id(self, id: u32) -> (product: Product)
        ensures
            product@ == self@.with_id(Some(id)),
    {
        let mut product = self;
        product.id = Some(id);
        product
    }

    /// The columns that hold the product's data, with their values.
    pub fn fields(&self) -> (fields: Vec<Field>)
        ensures
            field_views(fields@) == self@.fields(),
    {
        let mut fields: Vec<Field> = Vec::new();
        fields.push(Field::text("name", Kind::Substring, &self.name));
        fields.push(Field::text("category", Kind::Exact, &self.category));
        fields.push(Field::unsigned("quantity", self.quantity));
        fields.push(Field::flag("status", self.status));
        fields.push(Field::integer("bar_code", self.bar_code));
        fields.push(Field::decimal("cost_price", self.cost_price));
        fields.push(Field::decimal("sell_price", self.sell_price));
        fields.push(Field::text("description", Kind::Substring, &self.description));
        fields.push(Field::text("brand", Kind::Exact, &self.brand));
        fields.push(Field::text("supplier", Kind::Exact, &self.supplier));
        fields.push(Field::unsigned("employee_id", self.employee_id));
        fields.push(Field::date("date_added", self.date_added));
        fields.push(Field::date("date_remove", self.date_remove));
        proof {
            assert(field_views(fields@) =~= self@.fields());
        }
        fields
    }

    /// The columns that a search looks at, with their values.
    pub fn filter_fields(&self) -> (fields: Vec<Field>)
        ensures
            field_views(fields@) == self@.filter_fields(),
    {
        let mut fields: Vec<Field> = Vec::new();
        fields.push(Field::unsigned("id", self.id));
        let mut data = self.fields();
        let ghost columns = data@;
        fields.append(&mut data);
        proof {
            assert(field_views(fields@) =~= seq![self@.key()] + field_views(columns));
        }
        fields
    }

    /// The insertion of this product as a new row. The identifier is left
    /// out: the store assigns one.
    pub fn insert_statement(&self) -> (statement: Statement)
        ensures
            statement@.sql == insert_sql(PRODUCTS@, self@.fields()),
            statement@.params == all_values(self@.fields()),
    {
        let fields = self.fields();
        insert_statement(PRODUCTS, &fields)
    }

    /// The removal of the product `id`.
    pub fn delete_statement(id: u32) -> (statement: Statement)
        ensures
            statement@.sql == delete_sql(PRODUCTS@),
            statement@.params == seq![Some(ValueView::Integer(id as int))],
    {
        delete_statement(PRODUCTS, id)
    }

    /// The update that gives the stored product `self.id` every field that is
    /// set here and leaves the others as they are stored. There is nothing
    /// to run where the identifier is absent or no other field is set.
    pub fn update_statement(&self) -> (statement: Option<Statement>)
        ensures
            match statement {
                Some(s) => update_of(PRODUCTS@, self@.id, self@.fields()) == Some(s@),
                None => update_of(PRODUCTS@, self@.id, self@.fields()) is None,
            },
    {
        let fields = self.fields();
        update_statement(PRODUCTS, self.id, &fields)
    }

    /// The search for the products that agree with every field set here.
    pub fn select_statement(&self) -> (statement: Statement)
        ensures
            statement@.sql == select_sql(PRODUCTS@, self@.filter_fields()),
            statement@.params == filter_values(self@.filter_fields()),
    {
        let fields = self.filter_fields();
        select_statement(PRODUCTS, &fields)
    }
}

/// A row of the products' table as the store hands it out: identifiers,
/// counts and flags are 64-bit integers.
#[derive(Clone, Debug, PartialEq)]
pub struct ProductRecord {
    pub id: Option<i64>,
    pub name: Option<String>,
    pub category: Option<String>,
    pub quantity: Option<i64>,
    pub status: Option<i64>,
    pub bar_code: Option<i64>,
    pub cost_price: Option<Decimal>,
    pub sell_price: Option<Decimal>,
    pub description: Option<String>,
    pub brand: Option<String>,
    pub supplier: Option<String>,
    pub employee_id: Option<i64>,
    pub date_added: Option<Date>,
    pub date_remove: Option<Date>,
}

/// What a `ProductRecord` is.
pub struct ProductRecordView {
    pub id: Option<i64>,
    pub name: Option<Seq<char>>,
    pub category: Option<Seq<char>>,
    pub quantity: Option<i64>,
    pub status: Option<i64>,
    pub bar_code: Option<i64>,
    pub cost_price: Option<Decimal>,
    pub sell_price: Option<Decimal>,
    pub description: Option<Seq<char>>,
    pub brand: Option<Seq<char>>,
    pub supplier: Option<Seq<char>>,
    pub employee_id: Option<i64>,
    pub date_added: Option<DateView>,
    pub date_remove: Option<DateView>,
}

impl View for ProductRecord {
    type V = ProductRecordView;

    open spec fn view(&self) -> ProductRecordView {
        ProductRecordView {
            id: self.id,
            name: text_view(self.name),
            category: text_view(self.category),
            quantity: self.quantity,
            status: self.status,
            bar_code: self.bar_code,
            cost_price: self.cost_price,
            sell_price: self.sell_price,
            description: text_view(self.description),
            brand: text_view(self.brand),
            supplier: text_view(self.supplier),
            employee_id: self.employee_id,
            date_added: date_view(self.date_added),
            date_remove: date_view(self.date_remove),
        }
    }
}

impl ProductRecordView {
    /// The row in which a product is stored.
    pub open spec fn of(product: ProductView) -> ProductRecordView {
        ProductRecordView {
            id: stored_count(product.id),
            name: product.name,
            category: product.category,
            quantity: stored_count(product.quantity),
            status: stored_flag(product.status),
            bar_code: product.bar_code,
            cost_price: product.cost_price,
            sell_price: product.sell_price,
            description: product.description,
            brand: product.brand,
            supplier: product.supplier,
            employee_id: stored_count(product.employee_id),
            date_added: product.date_added,
            date_remove: product.date_remove,
        }
    }

    /// Why a row cannot be read, if it cannot: the first of its identifier,
    /// its quantity and its employee's identifier that does not fit.
    pub open spec fn refusal(self) -> Option<OutOfRange> {
        if !fits(self.id) {
            Some(OutOfRange { column: Narrowed::Id, value: self.id.unwrap() })
        } else if !fits(self.quantity) {
            Some(OutOfRange { column: Narrowed::Quantity, value: self.quantity.unwrap() })
        } else if !fits(self.employee_id) {
            Some(OutOfRange { column: Narrowed::EmployeeId, value: self.employee_id.unwrap() })
        } else {
            None
        }
    }

    /// The product that a row stands for, where the row can be read.
    pub open spec fn product(self) -> ProductView {
        ProductView {
            id: narrowed(self.id),
            name: self.name,
            category: self.category,
            quantity: narrowed(self.quantity),
            status: flag_of(self.status),
            bar_code: self.bar_code,
            cost_price: self.cost_price,
            sell_price: self.sell_price,
            description: self.description,
            brand: self.brand,
            supplier: self.supplier,
            employee_id: narrowed(self.employee_id),
            date_added: self.date_added,
            date_remove: self.date_remove,
        }
    }
}

impl ProductRecord {
    /// Whether `products` are what the rows stand for, one for one and in the
    /// rows' order, every row being readable.
    pub open spec fn read_as(records: Seq<ProductRecord>, products: Seq<Product>) -> bool {
        &&& products.len() == records.len()
        &&& forall|i: int|
            0 <= i < records.len() ==> (#[trigger] records[i])@.refusal() is None && products[i]@
                == records[i]@.product()
    }

    /// Whether `error` is the reason why the first row that cannot be read
    /// cannot be read.
    pub open spec fn refused_with(records: Seq<ProductRecord>, error: OutOfRange) -> bool {
        exists|i: int|
            {
                &&& 0 <= i < records.len()
                &&& (#[trigger] records[i])@.refusal() == Some(error)
                &&& forall|j: int| 0 <= j < i ==> (#[trigger] records[j])@.refusal() is None
            }
    }
}

impl Product {
    /// The product that a stored row stands for. A row with an identifier, a
    /// quantity or an employee's identifier that is negative or does not fit
    /// into 32 bits is refused.
    pub fn from_record(record: &ProductRecord) -> (result: Result<Product, OutOfRange>)
        ensures
            match result {
                Ok(product) => record@.refusal() is None && product@ == record@.product(),
                Err(error) => record@.refusal() == Some(error),
            },
    {
        let id = match narrow(Narrowed::Id, record.id) {
            Ok(id) => id,
            Err(error) => {
                return Err(error);
            },
        };
        let quantity = match narrow(Narrowed::Quantity, record.quantity) {
            Ok(quantity) => quantity,
            Err(error) => {
                return Err(error);
            },
        };
        let employee_id = match narrow(Narrowed::EmployeeId, record.employee_id) {
            Ok(employee_id) => employee_id,
            Err(error) => {
                return Err(error);
            },
        };
        Ok(
            Product {
                id,
                name: copy_text(&record.name),
                category: copy_text(&record.category),
                quantity,
                status: read_flag(record.status),
                bar_code: record.bar_code,
                cost_price: record.cost_price,
                sell_price: record.sell_price,
                description: copy_text(&record.description),
                brand: copy_text(&record.brand),
                supplier: copy_text(&record.supplier),
                employee_id,
                date_added: record.date_added,
                date_remove: record.date_remove,
            },
        )
    }
}

impl Product {
    /// The products that a list of stored rows stands for, in the rows' order.
    /// Where a row cannot be read the whole list is refused, with the reason
    /// of the first such row.
    pub fn from_records(records: &Vec<ProductRecord>) -> (result: Result<Vec<Product>, OutOfRange>)
        ensures
            match result {
                Ok(products) => ProductRecord::read_as(records@, products@),
                Err(error) => ProductRecord::refused_with(records@, error),
            },
    {
        let mut products: Vec<Product> = Vec::new();
        let mut i: usize = 0;
        while i < records.len()
            invariant
                i <= records.len(),
                products@.len() == i,
                forall|k: int|
                    0 <= k < i ==> (#[trigger] records@[k])@.refusal() is None && products@[k]@
                        == records@[k]@.product(),
            decreases records.len() - i,
        {
            match Product::from_record(&records[i]) {
                Ok(product) => {
                    products.push(product);
                },
                Err(error) => {
                    assert(records@[i as int]@.refusal() == Some(error));
                    return Err(error);
                },
            }
            i += 1;
        }
        Ok(products)
    }
}

impl ProductView {
    /// The same product with each empty text that a search would look for by
    /// containment taken away.
    pub open spec fn without_empty_searches(self) -> ProductView {
        ProductView {
            name: searched(self.name),
            description: searched(self.description),
            ..self
        }
    }

    /// The same product with another identifier.
    pub open spec fn with_id(self, id: Option<u32>) -> ProductView {
        ProductView { id, ..self }
    }
}

/// The filter with no field set asks for every product.
pub proof fn lemma_empty_filter_selects_every_product()
    ensures
        select_sql(PRODUCTS@, ProductView::empty().filter_fields()) == "SELECT * FROM "@
            + PRODUCTS@ + " WHERE 1=1"@,
        filter_values(ProductView::empty().filter_fields()) == Seq::<
            Option<ValueView>,
        >::empty(),
{
    lemma_unset_filter_selects_every_row(PRODUCTS@, ProductView::empty().filter_fields());
}

/// An empty name or description in a filter narrows nothing: the search is
/// the one made with that field unset.
pub proof fn lemma_empty_texts_do_not_narrow_products(product: ProductView)
    ensures
        select_sql(PRODUCTS@, product.filter_fields()) == select_sql(
            PRODUCTS@,
            product.without_empty_searches().filter_fields(),
        ),
        filter_values(product.filter_fields()) == filter_values(
            product.without_empty_searches().filter_fields(),
        ),
{
    let first = product.filter_fields();
    let second = if searched(product.name) != product.name {
        first.update(1, unset(first[1]))
    } else {
        first
    };
    if searched(product.name) != product.name {
        assert(product.name.unwrap() =~= Seq::<char>::empty());
        lemma_empty_text_does_not_narrow(PRODUCTS@, first, 1);
    }
    let third = if searched(product.description) != product.description {
        second.update(8, unset(second[8]))
    } else {
        second
    };
    if searched(product.description) != product.description {
        assert(product.description.unwrap() =~= Seq::<char>::empty());
        lemma_empty_text_does_not_narrow(PRODUCTS@, second, 8);
    }
    assert(third =~= product.without_empty_searches().filter_fields());
}

/// An update of a product without an identifier runs nothing.
pub proof fn lemma_product_update_needs_id(product: ProductView)
    requires
        product.id is None,
    ensures
        update_of(PRODUCTS@, product.id, product.fields()) is None,
{
}

/// An insertion does not look at the identifier: two products that differ in
/// nothing else are inserted by the same statement.
pub proof fn lemma_product_insert_ignores_id(product: ProductView, id: Option<u32>)
    ensures
        insert_sql(PRODUCTS@, product.with_id(id).fields()) == insert_sql(
            PRODUCTS@,
            product.fields(),
        ),
        all_values(product.with_id(id).fields()) == all_values(product.fields()),
{
    assert(product.with_id(id).fields() =~= product.fields());
}

/// A product that is stored and read back is the same product: its row can
/// always be read, and no field changes on the way.
pub proof fn lemma_product_round_trip(product: ProductView)
    ensures
        ProductRecordView::of(product).refusal() is None,
        ProductRecordView::of(product).product() == product,
{
    lemma_count_round_trip(product.id);
    lemma_count_round_trip(product.quantity);
    lemma_count_round_trip(product.employee_id);
    lemma_flag_round_trip(product.status);
}

impl Product {
    /// The data columns of the table, in the table's order. A row must hold
    /// a value for each column that is required.
    pub open spec fn schema() -> Seq<ColumnView> {
        seq![
            ColumnView { name: "name"@, affinity: Affinity::Text, required: true },
            ColumnView { name: "category"@, affinity: Affinity::Text, required: true },
            ColumnView { name: "quantity"@, affinity: Affinity::Integer, required: true },
            ColumnView { name: "status"@, affinity: Affinity::Integer, required: false },
            ColumnView { name: "bar_code"@, affinity: Affinity::Integer, required: true },
            ColumnView { name: "cost_price"@, affinity: Affinity::Real, required: true },
            ColumnView { name: "sell_price"@, affinity: Affinity::Real, required: true },
            ColumnView { name: "description"@, affinity: Affinity::Text, required: false },
            ColumnView { name: "brand"@, affinity: Affinity::Text, required: false },
            ColumnView { name: "supplier"@, affinity: Affinity::Text, required: false },
            ColumnView { name: "employee_id"@, affinity: Affinity::Integer, required: false },
            ColumnView { name: "date_added"@, affinity: Affinity::Text, required: false },
            ColumnView { name: "date_remove"@, affinity: Affinity::Text, required: false },
        ]
    }

    /// The employee that a product points at.
    pub open spec fn reference() -> ReferenceView {
        ReferenceView { column: "employee_id"@, table: "employees"@ }
    }

    /// The data columns of the table.
    pub fn columns() -> (columns: Vec<Column>)
        ensures
            column_views(columns@) == Product::schema(),
    {
        let mut columns: Vec<Column> = Vec::new();
        columns.push(Column { name: "name", affinity: Affinity::Text, required: true });
        columns.push(Column { name: "category", affinity: Affinity::Text, required: true });
        columns.push(Column { name: "quantity", affinity: Affinity::Integer, required: true });
        columns.push(Column { name: "status", affinity: Affinity::Integer, required: false });
        columns.push(Column { name: "bar_code", affinity: Affinity::Integer, required: true });
        columns.push(Column { name: "cost_price", affinity: Affinity::Real, required: true });
        columns.push(Column { name: "sell_price", affinity: Affinity::Real, required: true });
        columns.push(Column { name: "description", affinity: Affinity::Text, required: false });
        columns.push(Column { name: "brand", affinity: Affinity::Text, required: false });
        columns.push(Column { name: "supplier", affinity: Affinity::Text, required: false });
        columns.push(Column { name: "employee_id", affinity: Affinity::Integer, required: false });
        columns.push(Column { name: "date_added", affinity: Affinity::Text, required: false });
        columns.push(Column { name: "date_remove", affinity: Affinity::Text, required: false });
        proof {
            assert(column_views(columns@) =~= Product::schema());
        }
        columns
    }

    /// The text that creates the table unless it is there already.
    pub fn create_table() -> (sql: String)
        ensures
            sql@ == create_table_sql(PRODUCTS@, Product::schema(), Some(Product::reference())),
    {
        let columns = Product::columns();
        let reference = Reference { column: "employee_id", table: "employees" };
        create_table(PRODUCTS, &columns, Some(reference))
    }
}

/// The table has one data column for each field of a product, under the
/// field's name and in the fields' order: an insertion names the columns
/// that the table has.
pub proof fn lemma_product_fields_are_columns(product: ProductView)
    ensures
        Product::schema().len() == product.fields().len(),
        forall|i: int|
            0 <= i < product.fields().len() ==> (#[trigger] Product::schema()[i]).name
                == product.fields()[i].column,
{
}

/// The names of the table and of its columns hold no placeholder.
proof fn lemma_product_names_are_plain(product: ProductView)
    ensures
        plain(PRODUCTS@),
        plain_columns(product.fields()),
        plain_columns(product.filter_fields()),
{
    reveal_strlit("products");
    reveal_strlit("id");
    reveal_strlit("name");
    reveal_strlit("category");
    reveal_strlit("quantity");
    reveal_strlit("status");
    reveal_strlit("bar_code");
    reveal_strlit("cost_price");
    reveal_strlit("sell_price");
    reveal_strlit("description");
    reveal_strlit("brand");
    reveal_strlit("supplier");
    reveal_strlit("employee_id");
    reveal_strlit("date_added");
    reveal_strlit("date_remove");
    let fields = product.fields();
    assert forall|i: int| 0 <= i < fields.len() implies plain((#[trigger] fields[i]).column) by {
    }
    let filter_fields = product.filter_fields();
    assert forall|i: int| 0 <= i < filter_fields.len() implies plain(
        (#[trigger] filter_fields[i]).column,
    ) by {
        if i > 0 {
            assert(filter_fields[i] == fields[i - 1]);
        }
    }
}

/// Every statement made for a product has a parameter for each of its
/// placeholders, and no parameter more.
pub proof fn lemma_product_statements_are_balanced(product: ProductView)
    ensures
        placeholders(select_sql(PRODUCTS@, product.filter_fields())) == filter_values(
            product.filter_fields(),
        ).len(),
        placeholders(insert_sql(PRODUCTS@, product.fields())) == all_values(
            product.fields(),
        ).len(),
        placeholders(update_sql(PRODUCTS@, product.fields())) == present_values(
            product.fields(),
        ).len() + 1,
        placeholders(delete_sql(PRODUCTS@)) == 1,
{
    lemma_product_names_are_plain(product);
    lemma_select_placeholders(PRODUCTS@, product.filter_fields());
    lemma_insert_placeholders(PRODUCTS@, product.fields());
    lemma_update_placeholders(PRODUCTS@, product.fields());
    lemma_delete_placeholders(PRODUCTS@);
}

} // verus!
