//! Shared data helpers: stack output lookup, site prefixes, and numeric
//! attributes of stored site records.
use vstd::prelude::*;

use crate::cloudformation::{clone_opt, opt_is, opt_text, StackDescription, StackOutput};
use crate::error::{fails_with, ErrorKind, ShimesuError};
use crate::text::{cat, chars_of, decimal, digit_char, is_digit, owned, same_text};

verus! {

/// The outputs `site list` needs.
pub struct ListOutputs {
    pub table_name: String,
    pub base_domain: String,
}

/// The regional stack outputs the commands read.
#[derive(Debug, Clone, Default)]
pub struct StackOutputs {
    pub table_name: Option<String>,
    pub bucket_name: Option<String>,
    pub base_domain: Option<String>,
    pub certificate_arn: Option<String>,
    pub distribution_id: Option<String>,
    pub distribution_domain_name: Option<String>,
}

/// The S3 key of a site's marker object, which is also the prefix of all its files.
pub fn marker_key(slug: &str) -> (key: String)
    ensures
        key@ == slug@ + "/"@,
{
    cat(slug, "/")
}

/// The value of the last output carrying `key` (`None` when none does); later
/// outputs with the same key replace earlier ones.
pub open spec fn last_output_value(outputs: Seq<StackOutput>, key: Seq<char>) -> Option<Seq<char>>
    decreases outputs.len(),
{
    if outputs.len() == 0 {
        None
    } else if opt_text(outputs.last().output_key) == Some(key) {
        opt_text(outputs.last().output_value)
    } else {
        last_output_value(outputs.drop_last(), key)
    }
}

pub open spec fn outputs_match(outputs: StackOutputs, described: Seq<StackOutput>) -> bool {
    &&& opt_text(outputs.table_name) == last_output_value(described, "TableName"@)
    &&& opt_text(outputs.bucket_name) == last_output_value(described, "BucketName"@)
    &&& opt_text(outputs.base_domain) == last_output_value(described, "BaseDomain"@)
    &&& opt_text(outputs.certificate_arn) == last_output_value(described, "CertificateArn"@)
    &&& opt_text(outputs.distribution_id) == last_output_value(described, "DistributionId"@)
    &&& opt_text(outputs.distribution_domain_name) == last_output_value(
        described,
        "DistributionDomainName"@,
    )
}

/// Reads the known outputs of a described stack.
pub fn stack_outputs_from_description(stack: &StackDescription) -> (outputs: StackOutputs)
    ensures
        outputs_match(outputs, stack.outputs@),
{
    let mut outputs = StackOutputs {
        table_name: None,
        bucket_name: None,
        base_domain: None,
        certificate_arn: None,
        distribution_id: None,
        distribution_domain_name: None,
    };
    let mut i: usize = 0;
    while i < stack.outputs.len()
        invariant
            i <= stack.outputs.len(),
            outputs_match(outputs, stack.outputs@.take(i as int)),
        decreases stack.outputs.len() - i,
    {
        let output = &stack.outputs[i];
        assert(stack.outputs@.take(i + 1).drop_last() == stack.outputs@.take(i as int));
        assert(stack.outputs@.take(i + 1).last() == stack.outputs@[i as int]);
        if opt_is(&output.output_key, "TableName") {
            outputs.table_name = clone_opt(&output.output_value);
        }
        if opt_is(&output.output_key, "BucketName") {
            outputs.bucket_name = clone_opt(&output.output_value);
        }
        if opt_is(&output.output_key, "BaseDomain") {
            outputs.base_domain = clone_opt(&output.output_value);
        }
        if opt_is(&output.output_key, "CertificateArn") {
            outputs.certificate_arn = clone_opt(&output.output_value);
        }
        if opt_is(&output.output_key, "DistributionId") {
            outputs.distribution_id = clone_opt(&output.output_value);
        }
        if opt_is(&output.output_key, "DistributionDomainName") {
            outputs.distribution_domain_name = clone_opt(&output.output_value);
        }
        i = i + 1;
    }
    assert(stack.outputs@.take(stack.outputs.len() as int) == stack.outputs@);
    outputs
}

/// `r` is `field`'s value, or the config error naming the missing output.
pub open spec fn required(
    r: Result<String, ShimesuError>,
    field: Option<String>,
    output_name: Seq<char>,
) -> bool {
    match field {
        Some(v) => r is Ok && r->Ok_0@ == v@,
        None => fails_with(
            r,
            (ErrorKind::Config, "Stack is missing required output "@ + output_name),
        ),
    }
}

fn require(field: &Option<String>, output_name: &str) -> (r: Result<String, ShimesuError>)
    ensures
        required(r, *field, output_name@),
{
    match field {
        Some(v) => Ok(v.clone()),
        None => Err(ShimesuError::Config(cat("Stack is missing required output ", output_name))),
    }
}

impl StackOutputs {
    pub fn require_table_name(&self) -> (r: Result<String, ShimesuError>)
        ensures
            required(r, self.table_name, "TableName"@),
    {
        require(&self.table_name, "TableName")
    }

    pub fn require_bucket_name(&self) -> (r: Result<String, ShimesuError>)
        ensures
            required(r, self.bucket_name, "BucketName"@),
    {
        require(&self.bucket_name, "BucketName")
    }

    pub fn require_base_domain(&self) -> (r: Result<String, ShimesuError>)
        ensures
            required(r, self.base_domain, "BaseDomain"@),
    {
        require(&self.base_domain, "BaseDomain")
    }

    pub fn require_distribution_id(&self) -> (r: Result<String, ShimesuError>)
        ensures
            required(r, self.distribution_id, "DistributionId"@),
    {
        require(&self.distribution_id, "DistributionId")
    }

    pub fn require_distribution_domain_name(&self) -> (r: Result<String, ShimesuError>)
        ensures
            required(r, self.distribution_domain_name, "DistributionDomainName"@),
    {
        require(&self.distribution_domain_name, "DistributionDomainName")
    }

    /// The table name and base domain, table name checked first.
    pub fn into_list_outputs(self) -> (r: Result<ListOutputs, ShimesuError>)
        ensures
            self.table_name is None ==> fails_with(
                r,
                (ErrorKind::Config, "Stack is missing required output "@ + "TableName"@),
            ),
            self.table_name is Some && self.base_domain is None ==> fails_with(
                r,
                (ErrorKind::Config, "Stack is missing required output "@ + "BaseDomain"@),
            ),
            self.table_name is Some && self.base_domain is Some ==> r is Ok
                && r->Ok_0.table_name@ == self.table_name->0@ && r->Ok_0.base_domain@
                == self.base_domain->0@,
    {
        let table_name = self.require_table_name()?;
        let base_domain = self.require_base_domain()?;
        Ok(ListOutputs { table_name, base_domain })
    }
}

/// A stored attribute of a site record.
#[derive(Debug, Clone)]
pub enum AttributeValue {
    /// A string attribute.
    S(String),
    /// A number attribute, in its decimal text form.
    N(String),
    /// Any other attribute type.
    Other,
}

/// One site record: attribute names with their values.
pub type SiteItem = Vec<(String, AttributeValue)>;

/// The value stored under `key`: the first attribute with that name.
pub open spec fn item_get(item: Seq<(String, AttributeValue)>, key: Seq<char>) -> Option<
    AttributeValue,
>
    decreases item.len(),
{
    if item.len() == 0 {
        None
    } else if item[0].0@ == key {
        Some(item[0].1)
    } else {
        item_get(item.drop_first(), key)
    }
}

/// Looks up an attribute by name.
pub fn item_lookup<'a>(item: &'a SiteItem, key: &str) -> (r: Option<&'a AttributeValue>)
    ensures
        match r {
            Some(v) => item_get(item@, key@) == Some(*v),
            None => item_get(item@, key@) is None,
        },
{
    let mut i: usize = 0;
    assert(item@.subrange(0, item.len() as int) == item@);
    while i < item.len()
        invariant
            i <= item.len(),
            item_get(item@, key@) == item_get(item@.subrange(i as int, item.len() as int), key@),
        decreases item.len() - i,
    {
        let ghost rest = item@.subrange(i as int, item.len() as int);
        assert(rest[0] == item@[i as int]);
        assert(rest.drop_first() == item@.subrange(i + 1, item.len() as int));
        if same_text(item[i].0.as_str(), key) {
            return Some(&item[i].1);
        }
        i = i + 1;
    }
    None
}

/// Decimal value of a digit string, most significant digit first.
pub open spec fn digits_value(ds: Seq<char>) -> int
    decreases ds.len(),
{
    if ds.len() == 0 {
        0
    } else {
        digits_value(ds.drop_last()) * 10 + (ds.last() as int - 48)
    }
}

pub open spec fn all_digits(ds: Seq<char>) -> bool {
    forall|i: int| 0 <= i < ds.len() ==> is_digit(#[trigger] ds[i])
}

/// The integer a decimal text denotes: an optional `+` or `-` followed by at
/// least one ASCII digit.
pub open spec fn parsed_integer(s: Seq<char>) -> Option<int> {
    if s.len() > 0 && (s[0] == '+' || s[0] == '-') {
        let ds = s.drop_first();
        if ds.len() > 0 && all_digits(ds) {
            Some(
                if s[0] == '-' {
                    -digits_value(ds)
                } else {
                    digits_value(ds)
                },
            )
        } else {
            None
        }
    } else if s.len() > 0 && all_digits(s) {
        Some(digits_value(s))
    } else {
        None
    }
}

/// What `str::parse::<i64>` gives: the denoted integer when it fits in `i64`.
pub open spec fn parsed_i64(s: Seq<char>) -> Option<i64> {
    match parsed_integer(s) {
        Some(v) => if i64::MIN <= v <= i64::MAX {
            Some(v as i64)
        } else {
            None
        },
        None => None,
    }
}

proof fn lemma_digits_nonneg(ds: Seq<char>)
    requires
        all_digits(ds),
    ensures
        digits_value(ds) >= 0,
    decreases ds.len(),
{
    if ds.len() > 0 {
        lemma_digits_nonneg(ds.drop_last());
    }
}

proof fn lemma_digits_monotone(ds: Seq<char>, k: int)
    requires
        all_digits(ds),
        0 <= k <= ds.len(),
    ensures
        digits_value(ds) >= digits_value(ds.take(k)),
    decreases ds.len(),
{
    if k < ds.len() {
        assert(ds.drop_last().take(k) == ds.take(k));
        lemma_digits_monotone(ds.drop_last(), k);
        lemma_digits_nonneg(ds.drop_last());
    } else {
        assert(ds.take(k) == ds);
    }
}

proof fn lemma_digit_char(k: nat)
    requires
        k < 10,
    ensures
        digit_char(k) as int == k + 48,
        is_digit(digit_char(k)),
{
    assert(((k + 48) as u32) as int == k + 48);
}

/// A count written in decimal reads back as the same number: its text is
/// digits only, and their value is the count.
pub proof fn lemma_decimal_reads_back(n: nat)
    ensures
        decimal(n).len() > 0,
        all_digits(decimal(n)),
        digits_value(decimal(n)) == n,
    decreases n,
{
    lemma_digit_char(n % 10);
    if n < 10 {
        let d = decimal(n);
        assert(d.drop_last() =~= Seq::<char>::empty());
        assert(digits_value(d.drop_last()) == 0);
        assert(d.last() == digit_char(n));
        assert(digits_value(d) == digits_value(d.drop_last()) * 10 + (d.last() as int - 48));
        assert(is_digit(d[0]));
    } else {
        lemma_decimal_reads_back(n / 10);
        let d = decimal(n);
        assert(d.drop_last() == decimal(n / 10));
        assert(d.last() == digit_char(n % 10));
        assert(digits_value(d) == digits_value(decimal(n / 10)) * 10 + (digit_char(n % 10) as int
            - 48));
        assert(n == (n / 10) * 10 + n % 10);
        assert forall|i: int| 0 <= i < d.len() implies is_digit(#[trigger] d[i]) by {
            if i < d.len() - 1 {
                assert(d[i] == decimal(n / 10)[i]);
            }
        }
    }
}

/// What a deployment record stores as a count (`n.to_string()`), the site
/// listing reads back as that count (`str::parse::<i64>`), for every count
/// that fits in `i64`.
pub proof fn lemma_count_round_trip(n: nat)
    requires
        n <= i64::MAX,
    ensures
        parsed_i64(decimal(n)) == Some(n as i64),
{
    lemma_decimal_reads_back(n);
    let d = decimal(n);
    assert(is_digit(d[0]));
}

/// Parses a decimal `i64` (`str::parse::<i64>`).
pub fn parse_i64(text: &str) -> (r: Option<i64>)
    ensures
        r == parsed_i64(text@),
{
    let cs = chars_of(text);
    if cs.len() == 0 {
        return None;
    }
    let negative = cs[0] == '-';
    let start: usize = if cs[0] == '+' || cs[0] == '-' { 1 } else { 0 };
    if start >= cs.len() {
        return None;
    }
    let ghost ds = cs@.subrange(start as int, cs.len() as int);
    proof {
        if start == 1 {
            assert(ds == cs@.drop_first());
        } else {
            assert(ds == cs@);
        }
    }
    let limit: u128 = 9_223_372_036_854_775_808;
    let mut acc: u128 = 0;
    let mut i: usize = start;
    while i < cs.len()
        invariant
            cs@ == text@,
            start <= i <= cs.len(),
            ds == cs@.subrange(start as int, cs.len() as int),
            cs.len() > 0,
            start < cs.len(),
            start == (if cs@[0] == '+' || cs@[0] == '-' { 1int } else { 0int }),
            negative == (cs@[0] == '-'),
            start == 1 ==> ds == cs@.drop_first(),
            start == 0 ==> ds == cs@,
            all_digits(ds.take(i - start)),
            acc == digits_value(ds.take(i - start)),
            acc <= limit,
            limit == 9_223_372_036_854_775_808u128,
        decreases cs.len() - i,
    {
        let c = cs[i];
        if !('0' <= c && c <= '9') {
            assert(!is_digit(ds[i - start]));
            return None;
        }
        let d: u8 = (c as u32 - 48) as u8;
        assert(ds.take(i + 1 - start).drop_last() == ds.take(i - start));
        assert(ds.take(i + 1 - start).last() == c);
        assert(acc * 10 + 9 <= 92233720368547758080 + 9) by (nonlinear_arith)
            requires
                acc <= 9_223_372_036_854_775_808u128,
        ;
        acc = acc * 10 + d as u128;
        i = i + 1;
        if acc > limit {
            proof {
                if all_digits(ds) {
                    lemma_digits_monotone(ds, i - start);
                }
            }
            return None;
        }
    }
    assert(ds.take(cs.len() - start) == ds);
    if negative {
        Some((0 - acc as i128) as i64)
    } else if acc <= 9_223_372_036_854_775_807 {
        Some(acc as i64)
    } else {
        None
    }
}

/// The numeric attribute `key` of a site record, when it is a number that fits `i64`.
pub open spec fn optional_i64(item: Seq<(String, AttributeValue)>, key: Seq<char>) -> Option<i64> {
    match item_get(item, key) {
        Some(AttributeValue::N(text)) => parsed_i64(text@),
        _ => None,
    }
}

pub fn parse_optional_i64(item: &SiteItem, key: &str) -> (r: Option<i64>)
    ensures
        r == optional_i64(item@, key@),
{
    match item_lookup(item, key) {
        Some(AttributeValue::N(text)) => parse_i64(text.as_str()),
        _ => None,
    }
}

} // verus!
