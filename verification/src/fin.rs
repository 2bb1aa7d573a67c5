//! The data model of the finance tracker: its entities, error taxonomy,
//! contract shapes and repository interfaces. Amount-carrying entities,
//! whose fields are floating point in the adapters, stay with them.

use vstd::prelude::*;

verus! {

/// A category transactions are classified into.
#[derive(Debug, Clone)]
pub struct TransactionType {
    pub id: String,
    pub name: String,
}

/// A rule assigning a transaction type by description.
#[derive(Debug, Clone)]
pub struct ClassifyingRule {
    pub id: String,
    pub transaction_type: TransactionType,
    pub description: String,
}

/// The failure taxonomy of the tracker.
#[derive(Debug, Clone)]
pub enum FinError {
    DbError(String),
    NotFound(String),
    AlreadyExists(String),
    InvalidFormat(String, String),
}

/// A page of results together with how it was cut.
#[derive(Debug, Clone)]
pub struct PaginatedResult<T> {
    pub data: T,
    pub pagination: OutputPagination,
}

/// A rendered report over a date range: totals by type and overall.
#[derive(Debug, Clone)]
pub struct Report {
    pub start_date: i64,
    pub end_date: i64,
    pub by_type: std::collections::HashMap<String, String>,
    pub total: String,
}

/// The tally of one classification run.
#[derive(Debug, Clone, PartialEq, Eq, Structural)]
pub struct TransactionClassificationResult {
    pub classified_count: u32,
    pub unclassified_count: u32,
    pub total_count: u32,
}

/// How a query is to be paginated.
#[derive(Debug, Clone)]
pub enum Pagination {
    LimitAndPage { limit: u32, page: u32 },
    Unpaginated,
}

impl Default for Pagination {
    /// Unpaginated by default.
    fn default() -> (r: Self)
        ensures
            r is Unpaginated,
    {
        Pagination::Unpaginated
    }
}

/// How a returned page was cut.
#[derive(Debug, Clone)]
pub enum OutputPagination {
    Unpaginated,
}

impl Default for OutputPagination {
    fn default() -> (r: Self)
        ensures
            r is Unpaginated,
    {
        OutputPagination::Unpaginated
    }
}

/// When a classification run stops.
#[derive(Debug, Clone)]
pub enum ClassifyTransactionStopCondition {
    AlreadyExists,
    Limit(u32),
    Date(i64),
    Unbounded,
}

impl Default for ClassifyTransactionStopCondition {
    /// Runs to the end by default.
    fn default() -> (r: Self)
        ensures
            r is Unbounded,
    {
        ClassifyTransactionStopCondition::Unbounded
    }
}

/// When a run over stored transactions stops.
#[derive(Debug, Clone)]
pub enum ClassifiyStoredTransactionStopCondition {
    Limit(u32),
    Date(i64),
    Unbounded,
}

impl Default for ClassifiyStoredTransactionStopCondition {
    /// Runs to the end by default.
    fn default() -> (r: Self)
        ensures
            r is Unbounded,
    {
        ClassifiyStoredTransactionStopCondition::Unbounded
    }
}

/// What it takes to create a transaction.
#[derive(Debug, Clone)]
pub struct CreateTransactionData {
    pub transaction_type_id: String,
    pub cents: i64,
    pub date: i64,
    pub description: String,
}

/// A partial update of a transaction.
#[derive(Debug, Clone)]
pub struct UpdateTransactionData {
    pub transaction_type_id: Option<String>,
    pub cents: Option<i64>,
    pub date: Option<i64>,
    pub description: Option<String>,
}

/// What it takes to create an unclassified transaction.
#[derive(Debug, Clone)]
pub struct CreateUnclassifiedTransactionData {
    pub cents: i64,
    pub date: i64,
    pub description: String,
}

/// A partial update of an unclassified transaction.
#[derive(Debug, Clone)]
pub struct UpdateUnclassifiedTransactionData {
    pub cents: Option<i64>,
    pub date: Option<i64>,
    pub description: Option<String>,
}

/// What it takes to create a classifying rule.
#[derive(Debug, Clone)]
pub struct CreateClassifyingRuleData {
    pub transaction_type_id: String,
    pub description: String,
}

/// A partial update of a classifying rule.
#[derive(Debug, Clone)]
pub struct UpdateClassifyingRuleData {
    pub transaction_type_id: Option<String>,
    pub description: Option<String>,
}

/// Persistence of transaction types.
pub trait TransactionTypeRepository {
    fn create_transaction_type(&mut self, name: &str) -> Result<TransactionType, FinError>;

    fn get_transaction_type(&self, id: &str) -> Result<Option<TransactionType>, FinError>;

    fn get_transaction_types(&self, pagination: Pagination) -> Result<
        PaginatedResult<Vec<TransactionType>>,
        FinError,
    >;

    fn update_transaction_type(&mut self, id: &str, name: &str) -> Result<
        TransactionType,
        FinError,
    >;

    fn delete_transaction_type(&mut self, id: &str) -> Result<TransactionType, FinError>;
}

/// Persistence of classifying rules, kept in evaluation order.
pub trait ClassifyingRuleRepository {
    fn create_classifying_rule(&mut self, data: CreateClassifyingRuleData) -> Result<
        ClassifyingRule,
        FinError,
    >;

    fn get_classifying_rule(&self, id: &str) -> Result<Option<ClassifyingRule>, FinError>;

    fn get_classifying_rules(&self, pagination: Pagination) -> Result<
        PaginatedResult<Vec<ClassifyingRule>>,
        FinError,
    >;

    fn update_classifying_rule(&mut self, id: &str, data: UpdateClassifyingRuleData) -> Result<
        ClassifyingRule,
        FinError,
    >;

    fn delete_classifying_rule(&mut self, id: &str) -> Result<ClassifyingRule, FinError>;

    fn reorder_classifying_rules(&mut self, source_id: &str, target_id: Option<&str>) -> Result<
        u32,
        FinError,
    >;
}

/// The tracker's entry point, generic over where it keeps its records.
pub struct Api<T> {
    db: T,
}

impl<T> Api<T> {
    /// The repository the tracker works on.
    pub closed spec fn database(&self) -> &T {
        &self.db
    }

    /// Build the tracker over a repository.
    pub fn new(db: T) -> (r: Api<T>)
        ensures
            r.database() == &db,
    {
        Api { db }
    }
}

} // verus!
