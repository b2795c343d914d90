//! A React component as the Minimact transformation collects it: its props,
//! its hooks, its local variables and helpers, and the templates of its
//! rendered tree. Maps keyed by name are lists of pairs in the order their
//! keys were first inserted.

use vstd::prelude::*;
use crate::js::JsExpr;

verus! {

/// A React component and everything collected about it.
#[derive(Debug)]
pub struct Component {
    pub name: String,
    pub props: Vec<Prop>,
    pub use_state: Vec<UseStateInfo>,
    pub use_client_state: Vec<UseStateInfo>,
    pub use_protected_state: Vec<UseStateInfo>,
    pub use_state_x: Vec<UseStateXInfo>,
    pub use_effect: Vec<UseEffectInfo>,
    pub use_ref: Vec<UseRefInfo>,
    pub use_markdown: Vec<UseMarkdownInfo>,
    pub use_razor_markdown: Vec<UseRazorMarkdownInfo>,
    pub use_template: Option<UseTemplateInfo>,
    pub use_validation: Vec<UseValidationInfo>,
    pub use_modal: Vec<UseModalInfo>,
    pub use_toggle: Vec<UseToggleInfo>,
    pub use_dropdown: Vec<UseDropdownInfo>,
    pub use_pub: Vec<UsePubInfo>,
    pub use_sub: Vec<UseSubInfo>,
    pub use_micro_task: Vec<UseMicroTaskInfo>,
    pub use_macro_task: Vec<UseMacroTaskInfo>,
    pub use_signalr: Vec<UseSignalRInfo>,
    pub use_server_task: Vec<UseServerTaskInfo>,
    pub paginated_tasks: Vec<PaginatedTaskInfo>,
    pub use_mvc_state: Vec<UseMvcStateInfo>,
    pub use_mvc_view_model: Vec<UseMvcViewModelInfo>,
    pub use_predict_hint: Vec<UsePredictHintInfo>,
    pub custom_hooks: Vec<CustomHookInstance>,
    pub imported_hook_metadata: Vec<(String, HookMetadata)>,
    pub event_handlers: Vec<EventHandler>,
    pub client_handlers: Vec<ClientHandler>,
    pub client_effects: Vec<ClientEffect>,
    pub local_variables: Vec<LocalVariable>,
    pub helper_functions: Vec<HelperFunction>,
    pub render_body: Option<Box<JsExpr>>,
    pub plugin_usages: Vec<PluginUsage>,
    pub state_types: Vec<(String, String)>,
    pub dependencies: Vec<(String, Vec<String>)>,
    pub external_imports: Vec<String>,
    pub client_computed_vars: Vec<String>,
    pub templates: Vec<(String, Template)>,
    pub loop_templates: Vec<LoopTemplate>,
    pub structural_templates: Vec<StructuralTemplate>,
    pub conditional_element_templates: Vec<(String, ConditionalElementTemplate)>,
    pub expression_templates: Vec<ExpressionTemplate>,
}

/// A prop of a component: its name and C# type.
#[derive(Debug)]
pub struct Prop {
    pub name: String,
    pub prop_type: String,
}

/// A state hook: the state variable, its setter, its initial value in C#, its C# type, and whether it lives on the client.
#[derive(Debug)]
pub struct UseStateInfo {
    pub var_name: String,
    pub setter_name: Option<String>,
    pub initial_value: String,
    pub state_type: String,
    pub is_client_state: bool,
}

/// A declarative state projection.
#[derive(Debug)]
pub struct UseStateXInfo {
    pub var_name: String,
    pub selector: String,
}

/// An effect hook: the names it depends on, and whether it runs on the client.
#[derive(Debug)]
pub struct UseEffectInfo {
    pub dependencies: Vec<String>,
    pub is_client_side: bool,
}

/// A ref hook: its name and initial value in C#.
#[derive(Debug)]
pub struct UseRefInfo {
    pub name: String,
    pub initial_value: String,
}

/// A markdown content hook.
#[derive(Debug)]
pub struct UseMarkdownInfo {
    pub name: String,
    pub setter: String,
    pub initial_value: String,
}

/// A template hook.
#[derive(Debug)]
pub struct UseTemplateInfo {
    pub template_name: String,
}

/// A validation hook and its rules.
#[derive(Debug)]
pub struct UseValidationInfo {
    pub name: String,
    pub rules: Vec<ValidationRule>,
}

/// One validation rule.
#[derive(Debug)]
pub struct ValidationRule {
    pub field: String,
    pub rule_type: String,
    pub message: String,
}

/// A modal hook.
#[derive(Debug)]
pub struct UseModalInfo {
    pub name: String,
    pub is_open_var: String,
    pub open_fn: String,
    pub close_fn: String,
}

/// A toggle hook.
#[derive(Debug)]
pub struct UseToggleInfo {
    pub name: String,
    pub value_var: String,
    pub toggle_fn: String,
}

/// A dropdown hook.
#[derive(Debug)]
pub struct UseDropdownInfo {
    pub name: String,
    pub is_open_var: String,
    pub toggle_fn: String,
}

/// A use of a custom hook: the hook, the instance, its C# class and the values it returns.
#[derive(Debug)]
pub struct CustomHookInstance {
    pub hook_name: String,
    pub instance_name: String,
    pub class_name: String,
    pub return_values: Vec<String>,
}

/// An event handler.
#[derive(Debug)]
pub struct EventHandler {
    pub name: String,
    pub params: Vec<String>,
    pub is_async: bool,
}

/// A handler that runs on the client.
#[derive(Debug)]
pub struct ClientHandler {
    pub name: String,
    pub body: String,
}

/// An effect that runs on the client.
#[derive(Debug)]
pub struct ClientEffect {
    pub dependencies: Vec<String>,
    pub body: String,
}

/// A local variable of a component: its name, C# type, initial value in C#, and whether it is `const`.
#[derive(Debug)]
pub struct LocalVariable {
    pub name: String,
    pub var_type: String,
    pub initial_value: String,
    pub is_const: bool,
}

/// A helper function of a component: its name, parameters, C# return type, and whether it is `async`.
#[derive(Debug)]
pub struct HelperFunction {
    pub name: String,
    pub params: Vec<FunctionParam>,
    pub return_type: String,
    pub is_async: bool,
}

/// A parameter of a helper function.
#[derive(Debug)]
pub struct FunctionParam {
    pub name: String,
    pub param_type: String,
}

/// A use of a plugin.
#[derive(Debug)]
pub struct PluginUsage {
    pub plugin_name: String,
    pub state_binding: String,
    pub version: Option<String>,
}

/// A text or attribute template: where it stands, its text and the bindings it reads.
#[derive(Debug)]
pub struct Template {
    pub path: String,
    pub template: String,
    pub bindings: Vec<String>,
}

/// A loop over a state array: the array, the item and index variables, and the key of each item.
#[derive(Debug)]
pub struct LoopTemplate {
    pub state_key: String,
    pub item_var: String,
    pub index_var: Option<String>,
    pub key_expression: String,
}

/// A conditional piece of the rendered tree: `conditional` or `logical`, with the binding it tests.
#[derive(Debug)]
pub struct StructuralTemplate {
    pub template_type: String,
    pub condition_binding: String,
}

/// An element shown under a condition.
#[derive(Debug)]
pub struct ConditionalElementTemplate {
    pub path: String,
    pub condition_expression: String,
    pub evaluable: bool,
}

/// An expression of state shown in the tree: its kind, the state it reads, the binding, and the method and arguments applied.
#[derive(Debug)]
pub struct ExpressionTemplate {
    pub template_type: String,
    pub state_key: String,
    pub binding: String,
    pub method: Option<String>,
    pub args: Vec<String>,
}

/// A markdown hook with Razor syntax.
#[derive(Debug)]
pub struct UseRazorMarkdownInfo {
    pub name: String,
    pub setter: String,
    pub initial_value: String,
    pub has_razor_syntax: bool,
    pub referenced_variables: Vec<String>,
}

/// A publishing hook.
#[derive(Debug)]
pub struct UsePubInfo {
    pub name: String,
    pub channel: Option<String>,
}

/// A subscribing hook.
#[derive(Debug)]
pub struct UseSubInfo {
    pub name: String,
    pub channel: Option<String>,
    pub has_callback: bool,
}

/// A micro-task hook.
#[derive(Debug)]
pub struct UseMicroTaskInfo {
    pub body: Option<Box<JsExpr>>,
}

/// A macro-task hook.
#[derive(Debug)]
pub struct UseMacroTaskInfo {
    pub body: Option<Box<JsExpr>>,
    pub delay: u32,
}

/// A SignalR hook.
#[derive(Debug)]
pub struct UseSignalRInfo {
    pub name: String,
    pub hub_url: Option<String>,
    pub has_on_message: bool,
}

/// A server task hook.
#[derive(Debug)]
pub struct UseServerTaskInfo {
    pub name: String,
    pub async_function: Option<Box<JsExpr>>,
    pub parameters: Vec<TaskParameter>,
    pub is_streaming: bool,
    pub estimated_chunks: Option<u32>,
    pub return_type: String,
    pub runtime: String,
    pub parallel: bool,
}

/// A parameter of a server task.
#[derive(Debug)]
pub struct TaskParameter {
    pub name: String,
    pub param_type: String,
}

/// A paginated server task.
#[derive(Debug)]
pub struct PaginatedTaskInfo {
    pub name: String,
    pub fetch_task_name: String,
    pub count_task_name: Option<String>,
    pub page_size: u32,
    pub runtime: String,
    pub parallel: bool,
}

/// An MVC state hook.
#[derive(Debug)]
pub struct UseMvcStateInfo {
    pub name: Option<String>,
    pub setter: Option<String>,
    pub property_name: String,
    pub mvc_type: String,
}

/// An MVC view model hook.
#[derive(Debug)]
pub struct UseMvcViewModelInfo {
    pub name: String,
}

/// A prediction hint.
#[derive(Debug)]
pub struct UsePredictHintInfo {
    pub hint_id: Option<String>,
    pub predicted_state: Option<Box<JsExpr>>,
}

/// What is known of an imported hook.
#[derive(Debug)]
pub struct HookMetadata {
    pub class_name: String,
    pub states: Vec<UseStateInfo>,
    pub methods: Vec<HelperFunction>,
    pub event_handlers: Vec<EventHandler>,
    pub return_values: Vec<HookReturnValue>,
    pub jsx_elements: Option<Box<JsExpr>>,
}

/// A value a hook returns, with its kind.
#[derive(Debug)]
pub struct HookReturnValue {
    pub name: String,
    pub value_type: String,
}

/// A component of the given name with nothing collected yet.
pub open spec fn is_new_component(c: Component, name: Seq<char>) -> bool {
    &&& c.name@ == name
    &&& c.props@.len() == 0
    &&& c.use_state@.len() == 0
    &&& c.use_client_state@.len() == 0
    &&& c.use_protected_state@.len() == 0
    &&& c.use_state_x@.len() == 0
    &&& c.use_effect@.len() == 0
    &&& c.use_ref@.len() == 0
    &&& c.use_markdown@.len() == 0
    &&& c.use_razor_markdown@.len() == 0
    &&& c.use_template is None
    &&& c.use_validation@.len() == 0
    &&& c.use_modal@.len() == 0
    &&& c.use_toggle@.len() == 0
    &&& c.use_dropdown@.len() == 0
    &&& c.use_pub@.len() == 0
    &&& c.use_sub@.len() == 0
    &&& c.use_micro_task@.len() == 0
    &&& c.use_macro_task@.len() == 0
    &&& c.use_signalr@.len() == 0
    &&& c.use_server_task@.len() == 0
    &&& c.paginated_tasks@.len() == 0
    &&& c.use_mvc_state@.len() == 0
    &&& c.use_mvc_view_model@.len() == 0
    &&& c.use_predict_hint@.len() == 0
    &&& c.custom_hooks@.len() == 0
    &&& c.imported_hook_metadata@.len() == 0
    &&& c.event_handlers@.len() == 0
    &&& c.client_handlers@.len() == 0
    &&& c.client_effects@.len() == 0
    &&& c.local_variables@.len() == 0
    &&& c.helper_functions@.len() == 0
    &&& c.render_body is None
    &&& c.plugin_usages@.len() == 0
    &&& c.state_types@.len() == 0
    &&& c.dependencies@.len() == 0
    &&& c.external_imports@.len() == 0
    &&& c.client_computed_vars@.len() == 0
    &&& c.templates@.len() == 0
    &&& c.loop_templates@.len() == 0
    &&& c.structural_templates@.len() == 0
    &&& c.conditional_element_templates@.len() == 0
    &&& c.expression_templates@.len() == 0
}

impl Component {
    /// A component of the given name with nothing collected yet.
    pub fn new(name: String) -> (r: Self)
        ensures
            is_new_component(r, name@),
    {
        Component {
            name,
            props: Vec::new(),
            use_state: Vec::new(),
            use_client_state: Vec::new(),
            use_protected_state: Vec::new(),
            use_state_x: Vec::new(),
            use_effect: Vec::new(),
            use_ref: Vec::new(),
            use_markdown: Vec::new(),
            use_razor_markdown: Vec::new(),
            use_template: None,
            use_validation: Vec::new(),
            use_modal: Vec::new(),
            use_toggle: Vec::new(),
            use_dropdown: Vec::new(),
            use_pub: Vec::new(),
            use_sub: Vec::new(),
            use_micro_task: Vec::new(),
            use_macro_task: Vec::new(),
            use_signalr: Vec::new(),
            use_server_task: Vec::new(),
            paginated_tasks: Vec::new(),
            use_mvc_state: Vec::new(),
            use_mvc_view_model: Vec::new(),
            use_predict_hint: Vec::new(),
            custom_hooks: Vec::new(),
            imported_hook_metadata: Vec::new(),
            event_handlers: Vec::new(),
            client_handlers: Vec::new(),
            client_effects: Vec::new(),
            local_variables: Vec::new(),
            helper_functions: Vec::new(),
            render_body: None,
            plugin_usages: Vec::new(),
            state_types: Vec::new(),
            dependencies: Vec::new(),
            external_imports: Vec::new(),
            client_computed_vars: Vec::new(),
            templates: Vec::new(),
            loop_templates: Vec::new(),
            structural_templates: Vec::new(),
            conditional_element_templates: Vec::new(),
            expression_templates: Vec::new(),
        }
    }
}

} // verus!
