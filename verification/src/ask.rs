//! Planning commands from a free-text request: the plan model, the
//! rule-based planner, and the plan the command line shows.

use crate::errors::CliError;
use crate::text::{
    contains, contains_str, is_clean_text, parse_clean_text, str_eq, to_owned_string, trim,
};
use vstd::prelude::*;

verus! {

/// A prompt: non-empty text without surrounding whitespace.
#[derive(Debug, PartialEq, Eq)]
pub struct AskPrompt(String);

impl Clone for AskPrompt {
    fn clone(&self) -> (r: Self)
        ensures
            r@ == self@,
    {
        proof {
            use_type_invariant(self);
        }
        AskPrompt(self.0.clone())
    }
}

/// Why text is not a prompt.
#[derive(Debug, Clone, Copy, PartialEq, Eq, Structural)]
pub enum AskPromptParseError {
    Empty,
}

impl AskPromptParseError {
    /// The error's message.
    pub fn message(&self) -> (r: &'static str)
        ensures
            r@ == "prompt must not be empty"@,
    {
        "prompt must not be empty"
    }
}

impl View for AskPrompt {
    type V = Seq<char>;

    closed spec fn view(&self) -> Seq<char> {
        self.0@
    }
}

impl AskPrompt {
    #[verifier::type_invariant]
    closed spec fn is_clean(self) -> bool {
        is_clean_text(self.0@)
    }

    /// The text.
    pub fn as_str(&self) -> (r: &str)
        ensures
            r@ == self@,
            is_clean_text(r@),
    {
        proof {
            use_type_invariant(self);
        }
        self.0.as_str()
    }

    /// Parses a prompt: the trimmed input, which must not be empty.
    pub fn parse(raw: &str) -> (r: Result<Self, AskPromptParseError>)
        ensures
            match r {
                Ok(v) => trim(raw@).len() > 0 && v@ == trim(raw@),
                Err(_) => trim(raw@).len() == 0,
            },
    {
        match parse_clean_text(raw) {
            Some(t) => Ok(AskPrompt(t)),
            None => Err(AskPromptParseError::Empty),
        }
    }
}

impl core::str::FromStr for AskPrompt {
    type Err = AskPromptParseError;

    fn from_str(raw: &str) -> (r: Result<Self, Self::Err>)
        ensures
            match r {
                Ok(v) => trim(raw@).len() > 0 && v@ == trim(raw@),
                Err(_) => trim(raw@).len() == 0,
            },
    {
        Self::parse(raw)
    }
}

/// A rationale: non-empty text without surrounding whitespace.
#[derive(Debug, PartialEq, Eq)]
pub struct AskRationale(String);

impl Clone for AskRationale {
    fn clone(&self) -> (r: Self)
        ensures
            r@ == self@,
    {
        proof {
            use_type_invariant(self);
        }
        AskRationale(self.0.clone())
    }
}

/// Why text is not a rationale.
#[derive(Debug, Clone, Copy, PartialEq, Eq, Structural)]
pub enum AskRationaleError {
    Empty,
}

impl AskRationaleError {
    /// The error's message.
    pub fn message(&self) -> (r: &'static str)
        ensures
            r@ == "rationale must not be empty"@,
    {
        "rationale must not be empty"
    }
}

impl View for AskRationale {
    type V = Seq<char>;

    closed spec fn view(&self) -> Seq<char> {
        self.0@
    }
}

impl AskRationale {
    #[verifier::type_invariant]
    closed spec fn is_clean(self) -> bool {
        is_clean_text(self.0@)
    }

    /// The text.
    pub fn as_str(&self) -> (r: &str)
        ensures
            r@ == self@,
            is_clean_text(r@),
    {
        proof {
            use_type_invariant(self);
        }
        self.0.as_str()
    }

    /// Parses a rationale: the trimmed input, which must not be empty.
    pub fn parse(raw: &str) -> (r: Result<Self, AskRationaleError>)
        ensures
            match r {
                Ok(v) => trim(raw@).len() > 0 && v@ == trim(raw@),
                Err(_) => trim(raw@).len() == 0,
            },
    {
        match parse_clean_text(raw) {
            Some(t) => Ok(AskRationale(t)),
            None => Err(AskRationaleError::Empty),
        }
    }
}

impl<'a> vstd::std_specs::convert::TryFromSpecImpl<&'a str> for AskRationale {
    /// Rationales are known here by their text, not as values, so `try_from`
    /// is not claimed to equal [`Self::try_from_spec`]; its own `ensures`
    /// states its result.
    open spec fn obeys_try_from_spec() -> bool {
        false
    }

    /// The rationale of the trimmed text, refused where it is empty.
    open spec fn try_from_spec(raw: &'a str) -> Result<Self, AskRationaleError> {
        if trim(raw@).len() == 0 {
            Err(AskRationaleError::Empty)
        } else {
            Ok(choose|v: AskRationale| v@ == trim(raw@))
        }
    }
}

impl<'a> TryFrom<&'a str> for AskRationale {
    type Error = AskRationaleError;

    fn try_from(raw: &'a str) -> (r: Result<Self, Self::Error>)
        ensures
            match r {
                Ok(v) => trim(raw@).len() > 0 && v@ == trim(raw@),
                Err(_) => trim(raw@).len() == 0,
            },
    {
        Self::parse(raw)
    }
}

/// A parameter key: non-empty text without surrounding whitespace.
#[derive(Debug, PartialEq, Eq)]
pub struct AskParamKey(String);

impl Clone for AskParamKey {
    fn clone(&self) -> (r: Self)
        ensures
            r@ == self@,
    {
        proof {
            use_type_invariant(self);
        }
        AskParamKey(self.0.clone())
    }
}

/// Why text is not a parameter key.
#[derive(Debug, Clone, Copy, PartialEq, Eq, Structural)]
pub enum AskParamKeyParseError {
    Empty,
}

impl AskParamKeyParseError {
    /// The error's message.
    pub fn message(&self) -> (r: &'static str)
        ensures
            r@ == "param key must not be empty"@,
    {
        "param key must not be empty"
    }
}

impl View for AskParamKey {
    type V = Seq<char>;

    closed spec fn view(&self) -> Seq<char> {
        self.0@
    }
}

impl AskParamKey {
    #[verifier::type_invariant]
    closed spec fn is_clean(self) -> bool {
        is_clean_text(self.0@)
    }

    /// The text.
    pub fn as_str(&self) -> (r: &str)
        ensures
            r@ == self@,
            is_clean_text(r@),
    {
        proof {
            use_type_invariant(self);
        }
        self.0.as_str()
    }

    /// Parses a parameter key: the trimmed input, which must not be empty.
    pub fn parse(raw: &str) -> (r: Result<Self, AskParamKeyParseError>)
        ensures
            match r {
                Ok(v) => trim(raw@).len() > 0 && v@ == trim(raw@),
                Err(_) => trim(raw@).len() == 0,
            },
    {
        match parse_clean_text(raw) {
            Some(t) => Ok(AskParamKey(t)),
            None => Err(AskParamKeyParseError::Empty),
        }
    }
}

impl core::str::FromStr for AskParamKey {
    type Err = AskParamKeyParseError;

    fn from_str(raw: &str) -> (r: Result<Self, Self::Err>)
        ensures
            match r {
                Ok(v) => trim(raw@).len() > 0 && v@ == trim(raw@),
                Err(_) => trim(raw@).len() == 0,
            },
    {
        Self::parse(raw)
    }
}

/// How much harm running a planned command can do.
#[derive(Debug, Clone, Copy, PartialEq, Eq, Structural)]
pub enum AskRisk {
    NoRisk,
    ReadOnly,
    Destructive,
}

impl AskRisk {
    /// The risk's text.
    pub open spec fn text(self) -> Seq<char> {
        match self {
            AskRisk::NoRisk => "none"@,
            AskRisk::ReadOnly => "read_only"@,
            AskRisk::Destructive => "destructive"@,
        }
    }

    /// The risk's text.
    pub fn as_str(self) -> (r: &'static str)
        ensures
            r@ == self.text(),
    {
        match self {
            AskRisk::NoRisk => "none",
            AskRisk::ReadOnly => "read_only",
            AskRisk::Destructive => "destructive",
        }
    }
}

/// The commands a plan can hold.
#[derive(Debug, Clone, Copy, PartialEq, Eq, Structural)]
pub enum AskCommandKind {
    AuthCheck,
    CourseList,
}

impl AskCommandKind {
    /// The command's identifier.
    pub open spec fn id_text(self) -> Seq<char> {
        match self {
            AskCommandKind::AuthCheck => "auth-check"@,
            AskCommandKind::CourseList => "course-list"@,
        }
    }

    /// The command line that runs the command.
    pub open spec fn command_text(self) -> Seq<char> {
        match self {
            AskCommandKind::AuthCheck => "auth check"@,
            AskCommandKind::CourseList => "course list"@,
        }
    }

    /// The risk of the command.
    pub open spec fn risk_of(self) -> AskRisk {
        match self {
            AskCommandKind::AuthCheck => AskRisk::NoRisk,
            AskCommandKind::CourseList => AskRisk::NoRisk,
        }
    }

    /// The command's identifier.
    pub fn id(self) -> (r: &'static str)
        ensures
            r@ == self.id_text(),
    {
        match self {
            AskCommandKind::AuthCheck => "auth-check",
            AskCommandKind::CourseList => "course-list",
        }
    }

    /// The command line that runs the command.
    pub fn command(self) -> (r: &'static str)
        ensures
            r@ == self.command_text(),
    {
        match self {
            AskCommandKind::AuthCheck => "auth check",
            AskCommandKind::CourseList => "course list",
        }
    }

    /// The risk of the command.
    pub fn risk(self) -> (r: AskRisk)
        ensures
            r == self.risk_of(),
    {
        match self {
            AskCommandKind::AuthCheck | AskCommandKind::CourseList => AskRisk::NoRisk,
        }
    }

    /// Whether the command is destructive: exactly when its risk is.
    pub fn destructive(self) -> (r: bool)
        ensures
            r == (self.risk_of() == AskRisk::Destructive),
    {
        match self.risk() {
            AskRisk::Destructive => true,
            _ => false,
        }
    }
}

/// A parameter of a planned command.
#[derive(Debug, Clone, PartialEq, Eq)]
pub struct AskParam {
    key: AskParamKey,
    value: String,
}

impl View for AskParam {
    type V = (Seq<char>, Seq<char>);

    closed spec fn view(&self) -> (Seq<char>, Seq<char>) {
        (self.key@, self.value@)
    }
}

impl AskParam {
    /// A parameter `key` = `value`.
    pub fn new(key: AskParamKey, value: String) -> (r: Self)
        ensures
            r@ == (key@, value@),
    {
        AskParam { key, value }
    }

    /// The parameter's key.
    pub fn key(&self) -> (r: &AskParamKey)
        ensures
            r@ == self@.0,
    {
        &self.key
    }

    /// The parameter's value.
    pub fn value(&self) -> (r: &str)
        ensures
            r@ == self@.1,
    {
        self.value.as_str()
    }
}

/// The model of a planned command.
pub ghost struct AskCommandView {
    pub kind: AskCommandKind,
    pub params: Seq<(Seq<char>, Seq<char>)>,
}

/// A planned command with its parameters.
#[derive(Debug, Clone, PartialEq, Eq)]
pub struct AskCommand {
    kind: AskCommandKind,
    params: Vec<AskParam>,
}

/// The models of a list of parameters.
pub open spec fn param_views(params: Seq<AskParam>) -> Seq<(Seq<char>, Seq<char>)> {
    params.map_values(|p: AskParam| p@)
}

impl View for AskCommand {
    type V = AskCommandView;

    closed spec fn view(&self) -> AskCommandView {
        AskCommandView { kind: self.kind, params: param_views(self.params@) }
    }
}

impl AskCommand {
    /// A command of `kind` with `params`.
    pub fn new(kind: AskCommandKind, params: Vec<AskParam>) -> (r: Self)
        ensures
            r@ == (AskCommandView { kind, params: param_views(params@) }),
    {
        AskCommand { kind, params }
    }

    /// The command.
    pub fn kind(&self) -> (r: AskCommandKind)
        ensures
            r == self@.kind,
    {
        self.kind
    }

    /// The parameters, in order.
    pub fn params(&self) -> (r: &[AskParam])
        ensures
            param_views(r@) == self@.params,
    {
        self.params.as_slice()
    }
}

/// The model of a plan.
pub ghost struct AskPlanView {
    pub prompt: Seq<char>,
    pub rationale: Seq<char>,
    pub commands: Seq<AskCommandView>,
}

/// A plan: the request, why these commands, and the commands in order.
#[derive(Debug, Clone, PartialEq, Eq)]
pub struct AskPlan {
    prompt: AskPrompt,
    rationale: AskRationale,
    commands: Vec<AskCommand>,
}

/// The models of a list of commands.
pub open spec fn command_views(commands: Seq<AskCommand>) -> Seq<AskCommandView> {
    commands.map_values(|c: AskCommand| c@)
}

impl View for AskPlan {
    type V = AskPlanView;

    closed spec fn view(&self) -> AskPlanView {
        AskPlanView {
            prompt: self.prompt@,
            rationale: self.rationale@,
            commands: command_views(self.commands@),
        }
    }
}

impl AskPlan {
    /// A plan of `commands` for `prompt`.
    pub fn new(prompt: AskPrompt, rationale: AskRationale, commands: Vec<AskCommand>) -> (r: Self)
        ensures
            r@ == (AskPlanView {
                prompt: prompt@,
                rationale: rationale@,
                commands: command_views(commands@),
            }),
    {
        AskPlan { prompt, rationale, commands }
    }

    /// The request.
    pub fn prompt(&self) -> (r: &AskPrompt)
        ensures
            r@ == self@.prompt,
    {
        &self.prompt
    }

    /// Why these commands.
    pub fn rationale(&self) -> (r: &AskRationale)
        ensures
            r@ == self@.rationale,
    {
        &self.rationale
    }

    /// The commands, in order.
    pub fn commands(&self) -> (r: &[AskCommand])
        ensures
            command_views(r@) == self@.commands,
    {
        self.commands.as_slice()
    }
}

/// The Unicode lower case form of a text, as `str::to_lowercase` computes it.
pub uninterp spec fn unicode_lowercase(text: Seq<char>) -> Seq<char>;

/// Lower-cases `text` with `str::to_lowercase`. The contract names the result
/// and states no more of it: Unicode case mapping is not stated.
#[verifier::external_body]
fn lowercase(text: &str) -> (r: String)
    ensures
        r@ == unicode_lowercase(text@),
{
    text.to_lowercase()
}

/// The command a request asks for: an auth check where the lower-cased
/// request mentions both `auth` and `check`, else a course list where it
/// mentions both `list` and `course`, else nothing.
pub open spec fn ask_intent(prompt: Seq<char>) -> Option<AskCommandKind> {
    let n = unicode_lowercase(prompt);
    if contains(n, "auth"@) && contains(n, "check"@) {
        Some(AskCommandKind::AuthCheck)
    } else if contains(n, "list"@) && contains(n, "course"@) {
        Some(AskCommandKind::CourseList)
    } else {
        None
    }
}

fn classify(prompt: &str) -> (r: Option<AskCommandKind>)
    ensures
        r == ask_intent(prompt@),
{
    let normalized = lowercase(prompt);
    let n = normalized.as_str();
    if contains_str(n, "auth") && contains_str(n, "check") {
        Some(AskCommandKind::AuthCheck)
    } else if contains_str(n, "list") && contains_str(n, "course") {
        Some(AskCommandKind::CourseList)
    } else {
        None
    }
}

/// A request that mentions `auth` and `check`, in any case, plans an auth
/// check; else one that mentions `list` and `course` plans a course list;
/// any other plans nothing. The planned commands run `auth check` and
/// `course list`, and neither is risky.
pub proof fn lemma_ask_intents(prompt: Seq<char>)
    ensures
        ({
            let n = unicode_lowercase(prompt);
            let auth = contains(n, "auth"@) && contains(n, "check"@);
            let list = contains(n, "list"@) && contains(n, "course"@);
            &&& auth ==> ask_intent(prompt) == Some(AskCommandKind::AuthCheck)
            &&& !auth && list ==> ask_intent(prompt) == Some(AskCommandKind::CourseList)
            &&& !auth && !list ==> ask_intent(prompt) is None
        }),
        AskCommandKind::AuthCheck.command_text() == "auth check"@,
        AskCommandKind::CourseList.command_text() == "course list"@,
        AskCommandKind::AuthCheck.id_text() == "auth-check"@,
        AskCommandKind::CourseList.id_text() == "course-list"@,
        AskCommandKind::AuthCheck.risk_of() == AskRisk::NoRisk,
        AskCommandKind::CourseList.risk_of() == AskRisk::NoRisk,
{
}

/// The rationale given for a plan of `intent`.
pub open spec fn rationale_text(intent: Option<AskCommandKind>) -> Seq<char> {
    match intent {
        Some(AskCommandKind::AuthCheck) => "Detected intent to validate credentials."@,
        Some(AskCommandKind::CourseList) => "Detected intent to list courses."@,
        None => "No matching command yet."@,
    }
}

fn rationale_for(intent: Option<AskCommandKind>) -> (r: AskRationale)
    ensures
        r@ == rationale_text(intent),
{
    let text: &'static str = match intent {
        Some(AskCommandKind::AuthCheck) => "Detected intent to validate credentials.",
        Some(AskCommandKind::CourseList) => "Detected intent to list courses.",
        None => "No matching command yet.",
    };
    proof {
        reveal_strlit("Detected intent to validate credentials.");
        reveal_strlit("Detected intent to list courses.");
        reveal_strlit("No matching command yet.");
        assert(is_clean_text(text@));
    }
    AskRationale(to_owned_string(text))
}

/// Plans commands for a request.
pub trait AskPlanner {
    /// The plan for `prompt`.
    fn plan(&self, prompt: &AskPrompt) -> AskPlan;
}

/// The planner that recognises a few requests by their words.
#[derive(Debug, Default)]
pub struct RuleBasedAskPlanner;

impl AskPlanner for RuleBasedAskPlanner {
    /// The plan for `prompt`: the command of [`ask_intent`] without parameters,
    /// or no command.
    fn plan(&self, prompt: &AskPrompt) -> (r: AskPlan)
        ensures
            r@.prompt == prompt@,
            r@.rationale == rationale_text(ask_intent(prompt@)),
            r@.commands == match ask_intent(prompt@) {
                Some(k) => seq![AskCommandView { kind: k, params: Seq::empty() }],
                None => Seq::<AskCommandView>::empty(),
            },
    {
        let intent = classify(prompt.as_str());
        let mut commands: Vec<AskCommand> = Vec::new();
        match intent {
            Some(kind) => commands.push(AskCommand::new(kind, Vec::new())),
            None => {},
        }
        let plan = AskPlan::new(prompt.clone(), rationale_for(intent), commands);
        assert(command_views(commands@) =~= match intent {
            Some(k) => seq![AskCommandView { kind: k, params: Seq::empty() }],
            None => Seq::<AskCommandView>::empty(),
        }) by {
            if intent is Some {
                assert(param_views(Seq::<AskParam>::empty()) =~= Seq::empty());
            }
        }
        plan
    }
}

/// A command of the plan the command line shows.
#[derive(Debug, Clone, PartialEq, Eq)]
pub struct PlannedCommand {
    pub id: &'static str,
    pub command: &'static str,
    pub params: Vec<(&'static str, String)>,
    pub risk: &'static str,
    pub destructive: bool,
}

/// The plan the command line shows for a request.
#[derive(Debug, Clone, PartialEq, Eq)]
pub struct PromptPlan {
    pub prompt: String,
    pub rationale: String,
    pub commands: Vec<PlannedCommand>,
}

/// Whether `c` is the planned form of `kind`: its identifier, command line and
/// risk, no parameters, and not destructive.
pub open spec fn is_planned(c: PlannedCommand, kind: AskCommandKind) -> bool {
    &&& c.id@ == kind.id_text()
    &&& c.command@ == kind.command_text()
    &&& c.params@.len() == 0
    &&& c.risk@ == kind.risk_of().text()
    &&& !c.destructive
}

/// The plan for a request as the command line shows it: the request as
/// given, the rationale, and the command of [`ask_intent`], if any.
pub fn plan_from_prompt(prompt: &str) -> (r: PromptPlan)
    ensures
        r.prompt@ == prompt@,
        r.rationale@ == rationale_text(ask_intent(prompt@)),
        match ask_intent(prompt@) {
            Some(k) => r.commands@.len() == 1 && is_planned(r.commands@[0], k),
            None => r.commands@.len() == 0,
        },
{
    let intent = classify(prompt);
    let rationale = rationale_for(intent);
    let mut commands: Vec<PlannedCommand> = Vec::new();
    match intent {
        Some(kind) => {
            let planned = PlannedCommand {
                id: kind.id(),
                command: kind.command(),
                params: Vec::new(),
                risk: kind.risk().as_str(),
                destructive: kind.destructive(),
            };
            commands.push(planned);
        },
        None => {},
    }
    PromptPlan { prompt: to_owned_string(prompt), rationale: rationale.0, commands }
}

/// What running a planned command does.
#[derive(Debug, Clone, Copy, PartialEq, Eq, Structural)]
pub enum AskAction {
    /// Check the stored credentials.
    AuthCheck,
    /// List the user's courses.
    CourseList,
}

/// The action a command line names, where a plan can run it.
pub open spec fn action_named(command: Seq<char>) -> Option<AskAction> {
    if command == "auth check"@ {
        Some(AskAction::AuthCheck)
    } else if command == "course list"@ {
        Some(AskAction::CourseList)
    } else {
        None
    }
}

/// The action that runs a command of `kind`.
pub open spec fn action_of(kind: AskCommandKind) -> AskAction {
    match kind {
        AskCommandKind::AuthCheck => AskAction::AuthCheck,
        AskCommandKind::CourseList => AskAction::CourseList,
    }
}

/// Whether a shown plan is then run: only when confirmed, not when it is
/// only explained, and only when it holds commands.
pub fn runs_plan(plan: &PromptPlan, explain: bool, confirm: bool) -> (r: bool)
    ensures
        r == (!explain && confirm && plan.commands@.len() > 0),
{
    !explain && confirm && plan.commands.len() > 0
}

/// The action that runs a planned command, chosen by its command line; a
/// command that a plan cannot run is refused.
pub fn ask_action(command: &PlannedCommand) -> (r: Result<AskAction, CliError>)
    ensures
        match action_named(command.command@) {
            Some(a) => r == Ok::<AskAction, CliError>(a),
            None => r == Err::<AskAction, CliError>(CliError::AskExecutionUnsupported),
        },
{
    if str_eq(command.command, "auth check") {
        proof {
            reveal_strlit("auth check");
        }
        Ok(AskAction::AuthCheck)
    } else if str_eq(command.command, "course list") {
        proof {
            reveal_strlit("auth check");
            reveal_strlit("course list");
        }
        Ok(AskAction::CourseList)
    } else {
        proof {
            reveal_strlit("auth check");
            reveal_strlit("course list");
        }
        Err(CliError::AskExecutionUnsupported)
    }
}

/// Every command that a plan holds can be run, by the action of its kind.
pub proof fn lemma_planned_commands_run(c: PlannedCommand, kind: AskCommandKind)
    requires
        is_planned(c, kind),
    ensures
        action_named(c.command@) == Some(action_of(kind)),
{
    reveal_strlit("auth check");
    reveal_strlit("course list");
    match kind {
        AskCommandKind::AuthCheck => {
            assert(c.command@ == "auth check"@);
        },
        AskCommandKind::CourseList => {
            assert(c.command@ == "course list"@);
            assert("course list"@ != "auth check"@) by {
                assert("course list"@[0] != "auth check"@[0]);
            }
        },
    }
}

} // verus!
