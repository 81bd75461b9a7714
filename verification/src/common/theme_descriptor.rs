//! Themebooks: the fixed text that guides a player through making a theme.

use crate::common::theme::ThemeType;
use std::collections::HashMap;
use vstd::prelude::*;
use vstd::string::*;

verus! {

/// The text of each string of a list.
pub open spec fn texts(v: Seq<String>) -> Seq<Seq<char>> {
    v.map_values(|s: String| s@)
}

/// Copies a list of strings.
pub fn clone_strings(v: &Vec<String>) -> (r: Vec<String>)
    ensures
        r@ == v@,
{
    let r = v.clone();
    assert(r@ =~= v@);
    r
}

/// How a themebook introduces the theme's concept.
#[derive(Debug, PartialEq, Default)]
pub struct ThemeConcept {
    initial_blurb: String,
    question: String,
    example_answers: Vec<String>,
}

/// The value of a theme concept.
pub struct ThemeConceptView {
    pub initial_blurb: Seq<char>,
    pub question: Seq<char>,
    pub example_answers: Seq<Seq<char>>,
}

impl View for ThemeConcept {
    type V = ThemeConceptView;

    closed spec fn view(&self) -> ThemeConceptView {
        ThemeConceptView {
            initial_blurb: self.initial_blurb@,
            question: self.question@,
            example_answers: texts(self.example_answers@),
        }
    }
}

impl Clone for ThemeConcept {
    fn clone(&self) -> (r: Self)
        ensures
            r@ == self@,
    {
        ThemeConcept {
            initial_blurb: self.initial_blurb.clone(),
            question: self.question.clone(),
            example_answers: clone_strings(&self.example_answers),
        }
    }
}

impl ThemeConcept {
    /// A concept from its parts.
    pub fn new(initial_blurb: String, question: String, example_answers: Vec<String>) -> (r: Self)
        ensures
            r@ == (ThemeConceptView {
                initial_blurb: initial_blurb@,
                question: question@,
                example_answers: texts(example_answers@),
            }),
    {
        ThemeConcept { initial_blurb, question, example_answers }
    }

    /// The opening text.
    pub fn initial_blurb(&self) -> (r: &String)
        ensures
            r@ == self@.initial_blurb,
    {
        &self.initial_blurb
    }

    /// The question the player answers.
    pub fn question(&self) -> (r: &String)
        ensures
            r@ == self@.question,
    {
        &self.question
    }

    /// Example answers to the question.
    pub fn example_answers(&self) -> (r: &Vec<String>)
        ensures
            texts(r@) == self@.example_answers,
    {
        &self.example_answers
    }
}

/// An improvement a theme can gain.
#[derive(Debug, PartialEq, Default)]
pub struct ThemeImprovement {
    name: String,
    description: String,
}

/// The value of an improvement.
pub struct ThemeImprovementView {
    pub name: Seq<char>,
    pub description: Seq<char>,
}

impl View for ThemeImprovement {
    type V = ThemeImprovementView;

    closed spec fn view(&self) -> ThemeImprovementView {
        ThemeImprovementView { name: self.name@, description: self.description@ }
    }
}

impl Clone for ThemeImprovement {
    fn clone(&self) -> (r: Self)
        ensures
            r@ == self@,
    {
        ThemeImprovement { name: self.name.clone(), description: self.description.clone() }
    }
}

impl ThemeImprovement {
    /// An improvement from its parts.
    pub fn new(name: String, description: String) -> (r: Self)
        ensures
            r@ == (ThemeImprovementView { name: name@, description: description@ }),
    {
        ThemeImprovement { name, description }
    }

    /// The improvement's name.
    pub fn name(&self) -> (r: &String)
        ensures
            r@ == self@.name,
    {
        &self.name
    }

    /// What the improvement does.
    pub fn description(&self) -> (r: &String)
        ensures
            r@ == self@.description,
    {
        &self.description
    }
}

/// Prompts for the theme's key phrase (its mystery or identity).
#[derive(Debug, PartialEq, Default)]
pub struct ThemePhrase {
    prompts: Vec<String>,
    example_answers: Vec<String>,
}

/// The value of a phrase section.
pub struct ThemePhraseView {
    pub prompts: Seq<Seq<char>>,
    pub example_answers: Seq<Seq<char>>,
}

impl View for ThemePhrase {
    type V = ThemePhraseView;

    closed spec fn view(&self) -> ThemePhraseView {
        ThemePhraseView { prompts: texts(self.prompts@), example_answers: texts(self.example_answers@) }
    }
}

impl Clone for ThemePhrase {
    fn clone(&self) -> (r: Self)
        ensures
            r@ == self@,
    {
        ThemePhrase { prompts: clone_strings(&self.prompts), example_answers: clone_strings(&self.example_answers) }
    }
}

impl ThemePhrase {
    /// A phrase section from its parts.
    pub fn new(prompts: Vec<String>, example_answers: Vec<String>) -> (r: Self)
        ensures
            r@ == (ThemePhraseView { prompts: texts(prompts@), example_answers: texts(example_answers@) }),
    {
        ThemePhrase { prompts, example_answers }
    }

    /// The prompts.
    pub fn prompts(&self) -> (r: &Vec<String>)
        ensures
            texts(r@) == self@.prompts,
    {
        &self.prompts
    }

    /// Example answers.
    pub fn example_answers(&self) -> (r: &Vec<String>)
        ensures
            texts(r@) == self@.example_answers,
    {
        &self.example_answers
    }
}

/// A question that suggests a tag.
#[derive(Debug, PartialEq, Default)]
pub struct TagQuestion {
    question: String,
    example_answers: Vec<String>,
}

/// The value of a tag question.
pub struct TagQuestionView {
    pub question: Seq<char>,
    pub example_answers: Seq<Seq<char>>,
}

impl View for TagQuestion {
    type V = TagQuestionView;

    closed spec fn view(&self) -> TagQuestionView {
        TagQuestionView { question: self.question@, example_answers: texts(self.example_answers@) }
    }
}

impl Clone for TagQuestion {
    fn clone(&self) -> (r: Self)
        ensures
            r@ == self@,
    {
        TagQuestion { question: self.question.clone(), example_answers: clone_strings(&self.example_answers) }
    }
}

impl TagQuestion {
    /// A tag question from its parts.
    pub fn new(question: String, example_answers: Vec<String>) -> (r: Self)
        ensures
            r@ == (TagQuestionView { question: question@, example_answers: texts(example_answers@) }),
    {
        TagQuestion { question, example_answers }
    }

    /// The question.
    pub fn question(&self) -> (r: &String)
        ensures
            r@ == self@.question,
    {
        &self.question
    }

    /// Example answers.
    pub fn example_answers(&self) -> (r: &Vec<String>)
        ensures
            texts(r@) == self@.example_answers,
    {
        &self.example_answers
    }
}

/// Examples of the relationships a theme suggests.
#[derive(Debug, PartialEq, Default)]
pub struct ThemeRelationships {
    example_answers: Vec<String>,
}

/// The value of a relationships section.
pub struct ThemeRelationshipsView {
    pub example_answers: Seq<Seq<char>>,
}

impl View for ThemeRelationships {
    type V = ThemeRelationshipsView;

    closed spec fn view(&self) -> ThemeRelationshipsView {
        ThemeRelationshipsView { example_answers: texts(self.example_answers@) }
    }
}

impl Clone for ThemeRelationships {
    fn clone(&self) -> (r: Self)
        ensures
            r@ == self@,
    {
        ThemeRelationships { example_answers: clone_strings(&self.example_answers) }
    }
}

impl ThemeRelationships {
    /// A relationships section from its examples.
    pub fn new(example_answers: Vec<String>) -> (r: Self)
        ensures
            r@ == (ThemeRelationshipsView { example_answers: texts(example_answers@) }),
    {
        ThemeRelationships { example_answers }
    }

    /// Example answers.
    pub fn example_answers(&self) -> (r: &Vec<String>)
        ensures
            texts(r@) == self@.example_answers,
    {
        &self.example_answers
    }
}

/// A themebook.
#[derive(Debug, PartialEq)]
pub struct ThemeDescriptor {
    name: String,
    theme_type: ThemeType,
    concept: ThemeConcept,
    phrase: ThemePhrase,
    relationships: ThemeRelationships,
    improvements: Vec<ThemeImprovement>,
    power_tag_questions: HashMap<char, TagQuestion>,
    weakness_tag_questions: HashMap<char, TagQuestion>,
}

/// The value of a themebook; the tag questions are keyed by letter.
pub struct ThemeDescriptorView {
    pub name: Seq<char>,
    pub theme_type: ThemeType,
    pub concept: ThemeConceptView,
    pub phrase: ThemePhraseView,
    pub relationships: ThemeRelationshipsView,
    pub improvements: Seq<ThemeImprovementView>,
    pub power_tag_questions: Map<char, TagQuestion>,
    pub weakness_tag_questions: Map<char, TagQuestion>,
}

/// The values of a list of improvements.
pub open spec fn improvement_views(v: Seq<ThemeImprovement>) -> Seq<ThemeImprovementView> {
    v.map_values(|i: ThemeImprovement| i@)
}

impl View for ThemeDescriptor {
    type V = ThemeDescriptorView;

    closed spec fn view(&self) -> ThemeDescriptorView {
        ThemeDescriptorView {
            name: self.name@,
            theme_type: self.theme_type,
            concept: self.concept@,
            phrase: self.phrase@,
            relationships: self.relationships@,
            improvements: improvement_views(self.improvements@),
            power_tag_questions: self.power_tag_questions@,
            weakness_tag_questions: self.weakness_tag_questions@,
        }
    }
}

/// Copies a list of improvements.
pub fn clone_improvements(v: &Vec<ThemeImprovement>) -> (r: Vec<ThemeImprovement>)
    ensures
        improvement_views(r@) == improvement_views(v@),
{
    let mut r: Vec<ThemeImprovement> = Vec::new();
    let mut i: usize = 0;
    while i < v.len()
        invariant
            i <= v.len(),
            r.len() == i,
            forall|j: int| 0 <= j < i ==> #[trigger] r@[j]@ == v@[j]@,
        decreases v.len() - i,
    {
        r.push(v[i].clone());
        i = i + 1;
    }
    assert(improvement_views(r@) =~= improvement_views(v@));
    r
}

impl ThemeDescriptor {
    /// The themebook's name.
    pub fn name(&self) -> (r: &String)
        ensures
            r@ == self@.name,
    {
        &self.name
    }

    /// The kind of theme the themebook makes.
    pub fn theme_type(&self) -> (r: &ThemeType)
        ensures
            *r == self@.theme_type,
    {
        &self.theme_type
    }

    /// The concept section.
    pub fn concept(&self) -> (r: &ThemeConcept)
        ensures
            r@ == self@.concept,
    {
        &self.concept
    }

    /// The phrase section.
    pub fn phrase(&self) -> (r: &ThemePhrase)
        ensures
            r@ == self@.phrase,
    {
        &self.phrase
    }

    /// The relationships section.
    pub fn relationships(&self) -> (r: &ThemeRelationships)
        ensures
            r@ == self@.relationships,
    {
        &self.relationships
    }

    /// The improvements.
    pub fn improvements(&self) -> (r: &Vec<ThemeImprovement>)
        ensures
            improvement_views(r@) == self@.improvements,
    {
        &self.improvements
    }

    /// The questions that suggest power tags, by letter.
    pub fn power_tag_questions(&self) -> (r: &HashMap<char, TagQuestion>)
        ensures
            r@ == self@.power_tag_questions,
    {
        &self.power_tag_questions
    }

    /// The questions that suggest weakness tags, by letter.
    pub fn weakness_tag_questions(&self) -> (r: &HashMap<char, TagQuestion>)
        ensures
            r@ == self@.weakness_tag_questions,
    {
        &self.weakness_tag_questions
    }
}

/// Why a themebook builder could not produce its themebook.
#[derive(Debug, PartialEq)]
pub enum ThemeDescriptorBuilderError {
    /// A field was never set; the payload is its name.
    UninitializedField(&'static str),
    /// The value was rejected.
    ValidationError(String),
}

/// A themebook under construction: every field is required.
#[derive(Debug, PartialEq, Default)]
pub struct ThemeDescriptorBuilder {
    pub name: Option<String>,
    pub theme_type: Option<ThemeType>,
    pub concept: Option<ThemeConcept>,
    pub phrase: Option<ThemePhrase>,
    pub relationships: Option<ThemeRelationships>,
    pub improvements: Option<Vec<ThemeImprovement>>,
    pub power_tag_questions: Option<HashMap<char, TagQuestion>>,
    pub weakness_tag_questions: Option<HashMap<char, TagQuestion>>,
}

/// The name of the first field, in declaration order, that the themebook
/// builder does not have.
pub open spec fn descriptor_builder_missing(b: ThemeDescriptorBuilder) -> Option<Seq<char>> {
    if b.name is None { Some("name"@) }
    else if b.theme_type is None { Some("theme_type"@) }
    else if b.concept is None { Some("concept"@) }
    else if b.phrase is None { Some("phrase"@) }
    else if b.relationships is None { Some("relationships"@) }
    else if b.improvements is None { Some("improvements"@) }
    else if b.power_tag_questions is None { Some("power_tag_questions"@) }
    else if b.weakness_tag_questions is None { Some("weakness_tag_questions"@) }
    else { None }
}

impl ThemeDescriptorBuilder {
    /// Sets the name.
    pub fn name(self, value: &str) -> (r: Self)
        ensures
            r.name matches Some(v) && v@ == value@,
            r == (ThemeDescriptorBuilder { name: r.name, ..self }),
    {
        ThemeDescriptorBuilder { name: Some(value.to_owned()), ..self }
    }

    /// Sets the kind of theme.
    pub fn theme_type(self, value: ThemeType) -> (r: Self)
        ensures
            r == (ThemeDescriptorBuilder { theme_type: Some(value), ..self }),
    {
        ThemeDescriptorBuilder { theme_type: Some(value), ..self }
    }

    /// Sets the concept section.
    pub fn concept(self, value: ThemeConcept) -> (r: Self)
        ensures
            r == (ThemeDescriptorBuilder { concept: Some(value), ..self }),
    {
        ThemeDescriptorBuilder { concept: Some(value), ..self }
    }

    /// Sets the phrase section.
    pub fn phrase(self, value: ThemePhrase) -> (r: Self)
        ensures
            r == (ThemeDescriptorBuilder { phrase: Some(value), ..self }),
    {
        ThemeDescriptorBuilder { phrase: Some(value), ..self }
    }

    /// Sets the relationships section.
    pub fn relationships(self, value: ThemeRelationships) -> (r: Self)
        ensures
            r == (ThemeDescriptorBuilder { relationships: Some(value), ..self }),
    {
        ThemeDescriptorBuilder { relationships: Some(value), ..self }
    }

    /// Sets the improvements.
    pub fn improvements(self, value: Vec<ThemeImprovement>) -> (r: Self)
        ensures
            r == (ThemeDescriptorBuilder { improvements: Some(value), ..self }),
    {
        ThemeDescriptorBuilder { improvements: Some(value), ..self }
    }

    /// Sets the power tag questions.
    pub fn power_tag_questions(self, value: HashMap<char, TagQuestion>) -> (r: Self)
        ensures
            r == (ThemeDescriptorBuilder { power_tag_questions: Some(value), ..self }),
    {
        ThemeDescriptorBuilder { power_tag_questions: Some(value), ..self }
    }

    /// Sets the weakness tag questions.
    pub fn weakness_tag_questions(self, value: HashMap<char, TagQuestion>) -> (r: Self)
        ensures
            r == (ThemeDescriptorBuilder { weakness_tag_questions: Some(value), ..self }),
    {
        ThemeDescriptorBuilder { weakness_tag_questions: Some(value), ..self }
    }

    /// Builds the themebook; fails on the first field, in declaration
    /// order, that was never set.
    pub fn build(&self) -> (r: Result<ThemeDescriptor, ThemeDescriptorBuilderError>)
        ensures
            match descriptor_builder_missing(*self) {
                Some(f) => r matches Err(ThemeDescriptorBuilderError::UninitializedField(n)) && n@ == f,
                None => r matches Ok(d) && d@ == (ThemeDescriptorView {
                    name: self.name->0@,
                    theme_type: self.theme_type->0,
                    concept: self.concept->0@,
                    phrase: self.phrase->0@,
                    relationships: self.relationships->0@,
                    improvements: improvement_views(self.improvements->0@),
                    power_tag_questions: self.power_tag_questions->0@,
                    weakness_tag_questions: self.weakness_tag_questions->0@,
                }),
            },
    {
        proof {
            reveal_strlit("name");
            reveal_strlit("theme_type");
            reveal_strlit("concept");
            reveal_strlit("phrase");
            reveal_strlit("relationships");
            reveal_strlit("improvements");
            reveal_strlit("power_tag_questions");
            reveal_strlit("weakness_tag_questions");
        }
        let name = match &self.name {
            Some(v) => v.clone(),
            None => return Err(ThemeDescriptorBuilderError::UninitializedField("name")),
        };
        let theme_type = match self.theme_type {
            Some(v) => v,
            None => return Err(ThemeDescriptorBuilderError::UninitializedField("theme_type")),
        };
        let concept = match &self.concept {
            Some(v) => v.clone(),
            None => return Err(ThemeDescriptorBuilderError::UninitializedField("concept")),
        };
        let phrase = match &self.phrase {
            Some(v) => v.clone(),
            None => return Err(ThemeDescriptorBuilderError::UninitializedField("phrase")),
        };
        let relationships = match &self.relationships {
            Some(v) => v.clone(),
            None => return Err(ThemeDescriptorBuilderError::UninitializedField("relationships")),
        };
        let improvements = match &self.improvements {
            Some(v) => clone_improvements(v),
            None => return Err(ThemeDescriptorBuilderError::UninitializedField("improvements")),
        };
        let power_tag_questions = match &self.power_tag_questions {
            Some(v) => v.clone(),
            None => return Err(ThemeDescriptorBuilderError::UninitializedField("power_tag_questions")),
        };
        let weakness_tag_questions = match &self.weakness_tag_questions {
            Some(v) => v.clone(),
            None => return Err(ThemeDescriptorBuilderError::UninitializedField("weakness_tag_questions")),
        };
        Ok(ThemeDescriptor {
            name,
            theme_type,
            concept,
            phrase,
            relationships,
            improvements,
            power_tag_questions,
            weakness_tag_questions,
        })
    }
}

} // verus!
