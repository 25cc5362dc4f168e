//! What the command line hands to the pipeline, and the mapping rules
//! written on it.

use vstd::prelude::*;
use crate::text::{
    chars_of, concat3, count_and_find, count_char, first_index_of, is_whitespace, lemma_trimmed,
    trimmed, trimmed_range,
};
use crate::types::{texts, ColumnMapping};

verus! {

/// The arguments of one run.
#[derive(Clone, Debug, PartialEq, Eq)]
pub struct CliArgs {
    /// The base address of the server.
    pub server: String,
    /// The account to log in with.
    pub username: String,
    /// The password of the account.
    pub password: String,
    /// The directory that holds the source files.
    pub input: String,
    /// The directory that receives the converted files.
    pub output: String,
    /// Whether the service is to import valid inventions only.
    pub only_valid_invention: bool,
    /// The mapping rules, each written as `original:mapped`.
    pub column_mappings: Vec<String>,
}

/// The mathematical value of [`CliArgs`].
pub struct ArgsModel {
    pub server: Seq<char>,
    pub username: Seq<char>,
    pub password: Seq<char>,
    pub input: Seq<char>,
    pub output: Seq<char>,
    pub only_valid_invention: bool,
    pub column_mappings: Seq<Seq<char>>,
}

impl View for CliArgs {
    type V = ArgsModel;

    open spec fn view(&self) -> ArgsModel {
        ArgsModel {
            server: self.server@,
            username: self.username@,
            password: self.password@,
            input: self.input@,
            output: self.output@,
            only_valid_invention: self.only_valid_invention,
            column_mappings: texts(self.column_mappings@),
        }
    }
}

impl CliArgs {
    /// Whether the files are converted before they are uploaded: they are
    /// where at least one mapping rule was given.
    pub fn wants_conversion(&self) -> (b: bool)
        ensures
            b == (self@.column_mappings.len() > 0),
    {
        self.column_mappings.len() > 0
    }
}

/// Why a mapping rule could not be read.
#[derive(Clone, Debug, PartialEq, Eq)]
pub enum MappingError {
    /// The rule does not hold exactly one `:`.
    Malformed { token: String },
    /// One side of the `:` is empty or white space only.
    EmptyName { token: String },
}

/// The mathematical value of a [`MappingError`].
pub enum MappingErrorModel {
    Malformed { token: Seq<char> },
    EmptyName { token: Seq<char> },
}

impl View for MappingError {
    type V = MappingErrorModel;

    open spec fn view(&self) -> MappingErrorModel {
        match *self {
            MappingError::Malformed { token } => MappingErrorModel::Malformed { token: token@ },
            MappingError::EmptyName { token } => MappingErrorModel::EmptyName { token: token@ },
        }
    }
}

/// What a [`MappingError`] says.
pub open spec fn mapping_error_text(error: MappingErrorModel) -> Seq<char> {
    match error {
        MappingErrorModel::Malformed { token } => "列映射格式错误: '"@ + token
            + "'。正确格式: '原列名:映射列名'"@,
        MappingErrorModel::EmptyName { token } => "列名不能为空: '"@ + token + "'"@,
    }
}

impl MappingError {
    /// The error in words.
    pub fn message(&self) -> (text: String)
        ensures
            text@ == mapping_error_text(self@),
    {
        match self {
            MappingError::Malformed { token } => concat3(
                "列映射格式错误: '",
                token.as_str(),
                "'。正确格式: '原列名:映射列名'",
            ),
            MappingError::EmptyName { token } => concat3("列名不能为空: '", token.as_str(), "'"),
        }
    }
}

/// The texts of a list of rules, each as the pair of its original and its
/// mapped header.
pub open spec fn rule_texts(rules: Seq<ColumnMapping>) -> Seq<(Seq<char>, Seq<char>)> {
    rules.map_values(|r: ColumnMapping| (r.original@, r.mapped@))
}

/// What one written rule means. It must hold exactly one `:`. The original
/// header is what stands before it and the mapped header what stands behind
/// it, each without the white space around it, and neither may be empty.
pub open spec fn parsed_mapping(token: Seq<char>) -> Result<
    (Seq<char>, Seq<char>),
    MappingErrorModel,
> {
    if count_char(token, ':') != 1 {
        Err(MappingErrorModel::Malformed { token })
    } else {
        let colon = first_index_of(token, ':');
        let original = trimmed(token.take(colon));
        let mapped = trimmed(token.skip(colon + 1));
        if original.len() == 0 || mapped.len() == 0 {
            Err(MappingErrorModel::EmptyName { token })
        } else {
            Ok((original, mapped))
        }
    }
}

/// What a list of written rules means: the rules in the order in which they
/// were written, or the error of the first one that cannot be read.
pub open spec fn parsed_mappings(tokens: Seq<Seq<char>>) -> Result<
    Seq<(Seq<char>, Seq<char>)>,
    MappingErrorModel,
>
    decreases tokens.len(),
{
    if tokens.len() == 0 {
        Ok(Seq::empty())
    } else {
        match parsed_mappings(tokens.drop_last()) {
            Err(e) => Err(e),
            Ok(front) => match parsed_mapping(tokens.last()) {
                Err(e) => Err(e),
                Ok(rule) => Ok(front.push(rule)),
            },
        }
    }
}

/// Neither side of a rule that was read is empty, and neither begins or
/// ends with white space.
pub proof fn lemma_parsed_names(token: Seq<char>)
    ensures
        parsed_mapping(token) matches Ok((original, mapped)) ==> {
            &&& original.len() > 0
            &&& mapped.len() > 0
            &&& !is_whitespace(original.first()) && !is_whitespace(original.last())
            &&& !is_whitespace(mapped.first()) && !is_whitespace(mapped.last())
        },
{
    let colon = first_index_of(token, ':');
    lemma_trimmed(token.take(colon));
    lemma_trimmed(token.skip(colon + 1));
}

/// Reads one written rule.
pub fn parse_column_mapping(token: &str) -> (result: Result<ColumnMapping, MappingError>)
    ensures
        match result {
            Ok(rule) => parsed_mapping(token@) == Ok::<_, MappingErrorModel>(
                (rule.original@, rule.mapped@),
            ),
            Err(e) => parsed_mapping(token@) == Err::<(Seq<char>, Seq<char>), _>(e@),
        },
{
    let chars = chars_of(token);
    let (count, colon) = count_and_find(&chars, ':');
    if count != 1 {
        return Err(MappingError::Malformed { token: String::from_str(token) });
    }
    proof {
        crate::text::lemma_first_index_of(chars@, ':');
        assert(chars@.subrange(0, colon as int) == chars@.take(colon as int));
        assert(chars@.subrange(colon + 1, chars@.len() as int) == chars@.skip(colon + 1));
    }
    let original = trimmed_range(&chars, 0, colon);
    let mapped = trimmed_range(&chars, colon + 1, chars.len());
    if original.as_str().is_empty() || mapped.as_str().is_empty() {
        return Err(MappingError::EmptyName { token: String::from_str(token) });
    }
    Ok(ColumnMapping { original, mapped })
}

/// Reads the mapping rules written on the command line, in order. The first
/// rule that cannot be read ends the reading with its error.
pub fn parse_column_mappings(mappings: &Vec<String>) -> (result: Result<
    Vec<ColumnMapping>,
    MappingError,
>)
    ensures
        match result {
            Ok(rules) => parsed_mappings(texts(mappings@)) == Ok::<_, MappingErrorModel>(
                rule_texts(rules@),
            ),
            Err(e) => parsed_mappings(texts(mappings@)) == Err::<Seq<(Seq<char>, Seq<char>)>, _>(
                e@,
            ),
        },
{
    let mut rules: Vec<ColumnMapping> = Vec::new();
    let mut i: usize = 0;
    assert(texts(mappings@).take(0) =~= Seq::empty());
    assert(rule_texts(rules@) =~= Seq::empty());
    while i < mappings.len()
        invariant
            i <= mappings.len(),
            parsed_mappings(texts(mappings@).take(i as int)) == Ok::<_, MappingErrorModel>(
                rule_texts(rules@),
            ),
        decreases mappings.len() - i,
    {
        let ghost tokens = texts(mappings@).take(i + 1);
        assert(tokens.drop_last() == texts(mappings@).take(i as int));
        assert(tokens.last() == mappings@[i as int]@);
        match parse_column_mapping(mappings[i].as_str()) {
            Ok(rule) => {
                let ghost before = rule_texts(rules@);
                let ghost pair = (rule.original@, rule.mapped@);
                rules.push(rule);
                assert(rule_texts(rules@) =~= before.push(pair));
            },
            Err(e) => {
                proof {
                    lemma_error_stays(texts(mappings@), i + 1);
                }
                return Err(e);
            },
        }
        i += 1;
    }
    assert(texts(mappings@).take(i as int) == texts(mappings@));
    Ok(rules)
}

/// An error met while reading the first `n` rules is the error of the whole
/// list.
pub proof fn lemma_error_stays(tokens: Seq<Seq<char>>, n: int)
    requires
        0 <= n <= tokens.len(),
        parsed_mappings(tokens.take(n)) is Err,
    ensures
        parsed_mappings(tokens) == parsed_mappings(tokens.take(n)),
    decreases tokens.len() - n,
{
    if n < tokens.len() {
        let next = tokens.take(n + 1);
        assert(next.drop_last() == tokens.take(n));
        lemma_error_stays(tokens, n + 1);
    } else {
        assert(tokens.take(n) == tokens);
    }
}

} // verus!
