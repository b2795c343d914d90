//! The fixed parts of a generated SWC plugin library around its visitors.

use vstd::prelude::*;
use crate::metadata::PluginMetadata;
use crate::transform::{VisitorMethod, HelperFunction};
use crate::strings::{owned, joined};
use crate::crate_files::{generate_structs_from_metadata, structs_code};

verus! {

/// The head of a generated plugin library: its imports and its module of generators.
pub open spec fn lib_header_text() -> Seq<char> {
    r##"use swc_ecma_ast::*;
use swc_ecma_visit::{VisitMut, VisitMutWith};
use serde::{Serialize, Deserialize};
use std::collections::HashMap;

pub mod generators;

"##@
}

/// The head of a generated plugin library: its imports and its module of generators.
fn lib_header() -> (r: String)
    ensures
        r@ == lib_header_text(),
{
    owned(r##"use swc_ecma_ast::*;
use swc_ecma_visit::{VisitMut, VisitMutWith};
use serde::{Serialize, Deserialize};
use std::collections::HashMap;

pub mod generators;

"##)
}

/// The structs a generated plugin collects into when there is no metadata.
pub open spec fn default_structs_text() -> Seq<char> {
    r##"#[derive(Debug, Clone, Serialize, Deserialize)]
pub struct Component {
    pub name: String,
    pub hooks: Vec<Hook>,
    #[serde(rename = "jsxElements")]
    pub jsx_elements: Vec<JsxElementData>,
    pub props: Vec<PropData>,
}

#[derive(Debug, Clone, Serialize, Deserialize)]
pub struct Hook {
    #[serde(rename = "type")]
    pub hook_type: String,
    #[serde(rename = "stateName")]
    pub state_name: String,
    #[serde(rename = "setterName")]
    pub setter_name: Option<String>,
    #[serde(rename = "initialValue")]
    pub initial_value: String,
}

#[derive(Debug, Clone, Serialize, Deserialize)]
pub struct JsxElementData {
    #[serde(rename = "type")]
    pub element_type: String,
    pub attributes: HashMap<String, String>,
}

#[derive(Debug, Clone, Serialize, Deserialize)]
pub struct PropData {
    pub name: String,
    #[serde(rename = "type")]
    pub prop_type: String,
}
"##@
}

/// The structs a generated plugin collects into when there is no metadata.
fn default_structs() -> (r: String)
    ensures
        r@ == default_structs_text(),
{
    owned(r##"#[derive(Debug, Clone, Serialize, Deserialize)]
pub struct Component {
    pub name: String,
    pub hooks: Vec<Hook>,
    #[serde(rename = "jsxElements")]
    pub jsx_elements: Vec<JsxElementData>,
    pub props: Vec<PropData>,
}

#[derive(Debug, Clone, Serialize, Deserialize)]
pub struct Hook {
    #[serde(rename = "type")]
    pub hook_type: String,
    #[serde(rename = "stateName")]
    pub state_name: String,
    #[serde(rename = "setterName")]
    pub setter_name: Option<String>,
    #[serde(rename = "initialValue")]
    pub initial_value: String,
}

#[derive(Debug, Clone, Serialize, Deserialize)]
pub struct JsxElementData {
    #[serde(rename = "type")]
    pub element_type: String,
    pub attributes: HashMap<String, String>,
}

#[derive(Debug, Clone, Serialize, Deserialize)]
pub struct PropData {
    pub name: String,
    #[serde(rename = "type")]
    pub prop_type: String,
}
"##)
}

/// The parent contexts and the component extractor of a generated plugin, with its helpers.
pub open spec fn extractor_code_text() -> Seq<char> {
    r##"
/// Parent context tracking for Babel path emulation
#[derive(Debug, Clone)]
pub enum ParentContext {
    VarDeclarator(String),  // e.g. `const MyComp = ...`
    FnDecl(String),         // e.g. `function MyComp() {}`
    ExportDefault,
    ExportNamed(String),
    BlockStmt,
    Unknown,
}

impl ParentContext {
    pub fn get_type(&self) -> &'static str {
        match self {
            ParentContext::VarDeclarator(_) => "VariableDeclarator",
            ParentContext::FnDecl(_) => "FunctionDeclaration",
            ParentContext::ExportDefault => "ExportDefaultDeclaration",
            ParentContext::ExportNamed(_) => "ExportNamedDeclaration",
            ParentContext::BlockStmt => "BlockStatement",
            ParentContext::Unknown => "Unknown",
        }
    }

    pub fn get_id_name(&self) -> Option<&str> {
        match self {
            ParentContext::VarDeclarator(name) => Some(name),
            ParentContext::FnDecl(name) => Some(name),
            ParentContext::ExportNamed(name) => Some(name),
            _ => None,
        }
    }
}

pub struct ComponentExtractor {
    pub components: Vec<Component>,
    current_component: Option<Component>,
    inside_component: bool,
    /// Stack of parent nodes for context tracking (emulates Babel's path.parent)
    parent_stack: Vec<ParentContext>,
}

impl ComponentExtractor {
    pub fn new() -> Self {
        Self {
            components: Vec::new(),
            current_component: None,
            inside_component: false,
            parent_stack: Vec::new(),
        }
    }

    fn get_parent(&self) -> Option<&ParentContext> {
        self.parent_stack.last()
    }

    fn push_parent(&mut self, context: ParentContext) {
        self.parent_stack.push(context);
    }

    fn pop_parent(&mut self) {
        self.parent_stack.pop();
    }

    fn start_component(&mut self, name: String) {
        self.inside_component = true;
        self.current_component = Some(Component {
            name,
            hooks: Vec::new(),
            jsx_elements: Vec::new(),
            props: Vec::new(),
            local_variables: Vec::new(),
            helper_functions: Vec::new(),
        });
    }

    fn finish_component(&mut self) {
        if let Some(comp) = self.current_component.take() {
            self.components.push(comp);
        }
        self.inside_component = false;
    }

    fn add_hook(&mut self, hook: Hook) {
        if let Some(ref mut comp) = self.current_component {
            comp.hooks.push(hook);
        }
    }

    fn add_jsx_element(&mut self, element: JsxElement) {
        if let Some(ref mut comp) = self.current_component {
            comp.jsx_elements.push(element);
        }
    }

    // Helper method to get component name from current context
    // Emulates Babel's path.node.id and path.parent logic
    fn get_component_name_from_context(&self, node_has_id: bool, node_id_name: Option<&str>) -> Option<String> {
        // If current node has an id, use it
        if node_has_id {
            if let Some(name) = node_id_name {
                return Some(name.to_string());
            }
        }

        // Check parent context
        if let Some(parent) = self.get_parent() {
            match parent {
                ParentContext::VarDeclarator(name) => return Some(name.clone()),
                ParentContext::ExportNamed(name) => {
                    // For export named, check if node has id, otherwise return None
                    if node_has_id && node_id_name.is_some() {
                        return node_id_name.map(|s| s.to_string());
                    }
                    return None;
                }
                _ => {}
            }
        }

        None
    }

    // Helper to escape C# strings
    fn escape_c_sharp_string(&self, s: &str) -> String {
        s.replace('\\', "\\\\")
         .replace('"', "\\\"")
         .replace('\n', "\\n")
         .replace('\r', "\\r")
         .replace('\t', "\\t")
    }
}

"##@
}

/// The parent contexts and the component extractor of a generated plugin, with its helpers.
fn extractor_code() -> (r: String)
    ensures
        r@ == extractor_code_text(),
{
    owned(r##"
/// Parent context tracking for Babel path emulation
#[derive(Debug, Clone)]
pub enum ParentContext {
    VarDeclarator(String),  // e.g. `const MyComp = ...`
    FnDecl(String),         // e.g. `function MyComp() {}`
    ExportDefault,
    ExportNamed(String),
    BlockStmt,
    Unknown,
}

impl ParentContext {
    pub fn get_type(&self) -> &'static str {
        match self {
            ParentContext::VarDeclarator(_) => "VariableDeclarator",
            ParentContext::FnDecl(_) => "FunctionDeclaration",
            ParentContext::ExportDefault => "ExportDefaultDeclaration",
            ParentContext::ExportNamed(_) => "ExportNamedDeclaration",
            ParentContext::BlockStmt => "BlockStatement",
            ParentContext::Unknown => "Unknown",
        }
    }

    pub fn get_id_name(&self) -> Option<&str> {
        match self {
            ParentContext::VarDeclarator(name) => Some(name),
            ParentContext::FnDecl(name) => Some(name),
            ParentContext::ExportNamed(name) => Some(name),
            _ => None,
        }
    }
}

pub struct ComponentExtractor {
    pub components: Vec<Component>,
    current_component: Option<Component>,
    inside_component: bool,
    /// Stack of parent nodes for context tracking (emulates Babel's path.parent)
    parent_stack: Vec<ParentContext>,
}

impl ComponentExtractor {
    pub fn new() -> Self {
        Self {
            components: Vec::new(),
            current_component: None,
            inside_component: false,
            parent_stack: Vec::new(),
        }
    }

    fn get_parent(&self) -> Option<&ParentContext> {
        self.parent_stack.last()
    }

    fn push_parent(&mut self, context: ParentContext) {
        self.parent_stack.push(context);
    }

    fn pop_parent(&mut self) {
        self.parent_stack.pop();
    }

    fn start_component(&mut self, name: String) {
        self.inside_component = true;
        self.current_component = Some(Component {
            name,
            hooks: Vec::new(),
            jsx_elements: Vec::new(),
            props: Vec::new(),
            local_variables: Vec::new(),
            helper_functions: Vec::new(),
        });
    }

    fn finish_component(&mut self) {
        if let Some(comp) = self.current_component.take() {
            self.components.push(comp);
        }
        self.inside_component = false;
    }

    fn add_hook(&mut self, hook: Hook) {
        if let Some(ref mut comp) = self.current_component {
            comp.hooks.push(hook);
        }
    }

    fn add_jsx_element(&mut self, element: JsxElement) {
        if let Some(ref mut comp) = self.current_component {
            comp.jsx_elements.push(element);
        }
    }

    // Helper method to get component name from current context
    // Emulates Babel's path.node.id and path.parent logic
    fn get_component_name_from_context(&self, node_has_id: bool, node_id_name: Option<&str>) -> Option<String> {
        // If current node has an id, use it
        if node_has_id {
            if let Some(name) = node_id_name {
                return Some(name.to_string());
            }
        }

        // Check parent context
        if let Some(parent) = self.get_parent() {
            match parent {
                ParentContext::VarDeclarator(name) => return Some(name.clone()),
                ParentContext::ExportNamed(name) => {
                    // For export named, check if node has id, otherwise return None
                    if node_has_id && node_id_name.is_some() {
                        return node_id_name.map(|s| s.to_string());
                    }
                    return None;
                }
                _ => {}
            }
        }

        None
    }

    // Helper to escape C# strings
    fn escape_c_sharp_string(&self, s: &str) -> String {
        s.replace('\\', "\\\\")
         .replace('"', "\\\"")
         .replace('\n', "\\n")
         .replace('\r', "\\r")
         .replace('\t', "\\t")
    }
}

"##)
}

/// The module visitors of a generated plugin, which walk into every item.
pub open spec fn module_visitors_text() -> Seq<char> {
    r##"    fn visit_mut_module(&mut self, module: &mut Module) {
        eprintln!("Visiting module with {} items", module.body.len());
        module.visit_mut_children_with(self);
    }

    fn visit_mut_module_decl(&mut self, decl: &mut ModuleDecl) {
        eprintln!("Visiting module decl: {:?}", decl);
        decl.visit_mut_children_with(self);
    }

    fn visit_mut_export_default_decl(&mut self, export: &mut ExportDefaultDecl) {
        eprintln!("Found export default");
        export.visit_mut_children_with(self);
    }

"##@
}

/// The module visitors of a generated plugin, which walk into every item.
fn module_visitors() -> (r: String)
    ensures
        r@ == module_visitors_text(),
{
    owned(r##"    fn visit_mut_module(&mut self, module: &mut Module) {
        eprintln!("Visiting module with {} items", module.body.len());
        module.visit_mut_children_with(self);
    }

    fn visit_mut_module_decl(&mut self, decl: &mut ModuleDecl) {
        eprintln!("Visiting module decl: {:?}", decl);
        decl.visit_mut_children_with(self);
    }

    fn visit_mut_export_default_decl(&mut self, export: &mut ExportDefaultDecl) {
        eprintln!("Found export default");
        export.visit_mut_children_with(self);
    }

"##)
}

/// The visitor of function expressions in a generated plugin.
pub open spec fn fn_expr_visitor_text() -> Seq<char> {
    r##"    fn visit_mut_fn_expr(&mut self, node: &mut FnExpr) {
        if let Some(ident) = &node.ident {
            let name = ident.sym.to_string();
            if name.chars().next().map(|c| c.is_uppercase()).unwrap_or(false) {
                eprintln!("Found component function expression: {}", name);
                self.start_component(name);
                node.visit_mut_children_with(self);
                self.finish_component();
                return;
            }
        }
        node.visit_mut_children_with(self);
    }

"##@
}

/// The visitor of function expressions in a generated plugin.
fn fn_expr_visitor() -> (r: String)
    ensures
        r@ == fn_expr_visitor_text(),
{
    owned(r##"    fn visit_mut_fn_expr(&mut self, node: &mut FnExpr) {
        if let Some(ident) = &node.ident {
            let name = ident.sym.to_string();
            if name.chars().next().map(|c| c.is_uppercase()).unwrap_or(false) {
                eprintln!("Found component function expression: {}", name);
                self.start_component(name);
                node.visit_mut_children_with(self);
                self.finish_component();
                return;
            }
        }
        node.visit_mut_children_with(self);
    }

"##)
}

/// The visitor of function declarations in a generated plugin.
pub open spec fn fn_decl_visitor_text() -> Seq<char> {
    r##"    fn visit_mut_fn_decl(&mut self, node: &mut FnDecl) {
        let name = node.ident.sym.to_string();

        // Check if this is a component (starts with uppercase)
        if name.chars().next().map(|c| c.is_uppercase()).unwrap_or(false) {
            eprintln!("Found component function: {}", name); // Debug
            self.start_component(name);

            // Visit children to collect hooks and JSX
            node.visit_mut_children_with(self);

            self.finish_component();
        } else {
            node.visit_mut_children_with(self);
        }
    }

"##@
}

/// The visitor of function declarations in a generated plugin.
fn generate_fn_decl_visitor() -> (r: String)
    ensures
        r@ == fn_decl_visitor_text(),
{
    owned(r##"    fn visit_mut_fn_decl(&mut self, node: &mut FnDecl) {
        let name = node.ident.sym.to_string();

        // Check if this is a component (starts with uppercase)
        if name.chars().next().map(|c| c.is_uppercase()).unwrap_or(false) {
            eprintln!("Found component function: {}", name); // Debug
            self.start_component(name);

            // Visit children to collect hooks and JSX
            node.visit_mut_children_with(self);

            self.finish_component();
        } else {
            node.visit_mut_children_with(self);
        }
    }

"##)
}

/// The visitor of JSX elements in a generated plugin.
pub open spec fn jsx_element_visitor_text() -> Seq<char> {
    r##"    fn visit_mut_jsx_element(&mut self, node: &mut JSXElement) {
        let element_type = match &node.opening.name {
            JSXElementName::Ident(id) => id.sym.to_string(),
            _ => "unknown".to_string(),
        };

        let mut attributes = HashMap::new();
        for attr in &node.opening.attrs {
            if let JSXAttrOrSpread::JSXAttr(jsx_attr) = attr {
                if let JSXAttrName::Ident(name_ident) = &jsx_attr.name {
                    let value = match &jsx_attr.value {
                        Some(JSXAttrValue::Str(s)) => format!("{:?}", s.value), // Use Debug formatting for Wtf8
                        Some(JSXAttrValue::JSXExprContainer(_)) => "<expression>".to_string(),
                        Some(JSXAttrValue::JSXElement(_)) => "<jsx-element>".to_string(),
                        Some(JSXAttrValue::JSXFragment(_)) => "<fragment>".to_string(),
                        None => "true".to_string(),
                    };
                    attributes.insert(name_ident.sym.to_string(), value);
                }
            }
        }

        if self.inside_component {
            self.add_jsx_element(JsxElement {
                tag_name: element_type,
                is_self_closing: node.closing.is_none(),
            });
        }

        node.visit_mut_children_with(self);
    }

"##@
}

/// The visitor of JSX elements in a generated plugin.
fn generate_jsx_element_visitor() -> (r: String)
    ensures
        r@ == jsx_element_visitor_text(),
{
    owned(r##"    fn visit_mut_jsx_element(&mut self, node: &mut JSXElement) {
        let element_type = match &node.opening.name {
            JSXElementName::Ident(id) => id.sym.to_string(),
            _ => "unknown".to_string(),
        };

        let mut attributes = HashMap::new();
        for attr in &node.opening.attrs {
            if let JSXAttrOrSpread::JSXAttr(jsx_attr) = attr {
                if let JSXAttrName::Ident(name_ident) = &jsx_attr.name {
                    let value = match &jsx_attr.value {
                        Some(JSXAttrValue::Str(s)) => format!("{:?}", s.value), // Use Debug formatting for Wtf8
                        Some(JSXAttrValue::JSXExprContainer(_)) => "<expression>".to_string(),
                        Some(JSXAttrValue::JSXElement(_)) => "<jsx-element>".to_string(),
                        Some(JSXAttrValue::JSXFragment(_)) => "<fragment>".to_string(),
                        None => "true".to_string(),
                    };
                    attributes.insert(name_ident.sym.to_string(), value);
                }
            }
        }

        if self.inside_component {
            self.add_jsx_element(JsxElement {
                tag_name: element_type,
                is_self_closing: node.closing.is_none(),
            });
        }

        node.visit_mut_children_with(self);
    }

"##)
}

/// The visitor of variable declarators in a generated plugin.
pub open spec fn var_declarator_visitor_text() -> Seq<char> {
    r##"    fn visit_mut_var_declarator(&mut self, node: &mut VarDeclarator) {
        eprintln!("Visiting var declarator: {:?}", node.name);

        // Check for useState hooks with array destructuring
        if let Pat::Array(array_pat) = &node.name {
            if let Some(init) = &mut node.init {
                if let Expr::Call(call) = &mut **init {
                    if let Callee::Expr(expr) = &call.callee {
                        if let Expr::Ident(ident) = &**expr {
                            if &*ident.sym == "useState" {
                                eprintln!("Found useState hook!");
                                let state_name = if let Some(Some(Pat::Ident(id))) = array_pat.elems.get(0) {
                                    id.id.sym.to_string()
                                } else {
                                    "state".to_string()
                                };

                                let setter_name = if let Some(Some(Pat::Ident(id))) = array_pat.elems.get(1) {
                                    id.id.sym.to_string()
                                } else {
                                    "setState".to_string()
                                };

                                let initial_value = if let Some(arg) = call.args.get(0) {
                                    match &*arg.expr {
                                        Expr::Lit(Lit::Num(n)) => n.value.to_string(),
                                        Expr::Lit(Lit::Str(s)) => format!("{:?}", s.value), // Use Debug for Wtf8
                                        Expr::Lit(Lit::Bool(b)) => b.value.to_string(),
                                        _ => "unknown".to_string(),
                                    }
                                } else {
                                    "undefined".to_string()
                                };

                                self.add_hook(Hook {
                                    hook_type: "useState".to_string(),
                                    state_name,
                                    setter_name,
                                    initial_value,
                                });
                            }
                        }
                    }
                }
            }
        }

        // Check for arrow function components
        if let Pat::Ident(ident) = &node.name {
            let name = ident.id.sym.to_string();

            if let Some(init) = &mut node.init {
                if let Expr::Arrow(_arrow) = &mut **init {
                    if name.chars().next().map(|c| c.is_uppercase()).unwrap_or(false) {
                        self.start_component(name);
                        node.visit_mut_children_with(self);
                        self.finish_component();
                        return;
                    }
                }
            }
        }

        node.visit_mut_children_with(self);
    }

"##@
}

/// The visitor of variable declarators in a generated plugin.
fn generate_var_declarator_visitor() -> (r: String)
    ensures
        r@ == var_declarator_visitor_text(),
{
    owned(r##"    fn visit_mut_var_declarator(&mut self, node: &mut VarDeclarator) {
        eprintln!("Visiting var declarator: {:?}", node.name);

        // Check for useState hooks with array destructuring
        if let Pat::Array(array_pat) = &node.name {
            if let Some(init) = &mut node.init {
                if let Expr::Call(call) = &mut **init {
                    if let Callee::Expr(expr) = &call.callee {
                        if let Expr::Ident(ident) = &**expr {
                            if &*ident.sym == "useState" {
                                eprintln!("Found useState hook!");
                                let state_name = if let Some(Some(Pat::Ident(id))) = array_pat.elems.get(0) {
                                    id.id.sym.to_string()
                                } else {
                                    "state".to_string()
                                };

                                let setter_name = if let Some(Some(Pat::Ident(id))) = array_pat.elems.get(1) {
                                    id.id.sym.to_string()
                                } else {
                                    "setState".to_string()
                                };

                                let initial_value = if let Some(arg) = call.args.get(0) {
                                    match &*arg.expr {
                                        Expr::Lit(Lit::Num(n)) => n.value.to_string(),
                                        Expr::Lit(Lit::Str(s)) => format!("{:?}", s.value), // Use Debug for Wtf8
                                        Expr::Lit(Lit::Bool(b)) => b.value.to_string(),
                                        _ => "unknown".to_string(),
                                    }
                                } else {
                                    "undefined".to_string()
                                };

                                self.add_hook(Hook {
                                    hook_type: "useState".to_string(),
                                    state_name,
                                    setter_name,
                                    initial_value,
                                });
                            }
                        }
                    }
                }
            }
        }

        // Check for arrow function components
        if let Pat::Ident(ident) = &node.name {
            let name = ident.id.sym.to_string();

            if let Some(init) = &mut node.init {
                if let Expr::Arrow(_arrow) = &mut **init {
                    if name.chars().next().map(|c| c.is_uppercase()).unwrap_or(false) {
                        self.start_component(name);
                        node.visit_mut_children_with(self);
                        self.finish_component();
                        return;
                    }
                }
            }
        }

        node.visit_mut_children_with(self);
    }

"##)
}

/// The library of a generated plugin: its imports; the structs of the
/// metadata, or default ones without metadata; the component extractor; and
/// its visitors of modules, function declarations and expressions, JSX
/// elements and variable declarators.
pub open spec fn lib_rs_code(m: Option<&PluginMetadata>) -> Seq<char> {
    lib_header_text() + match m {
        Some(meta) => "// Structs from metadata\n"@ + structs_code(meta.structs@),
        None => "// Default structs (no metadata provided)\n"@ + default_structs_text(),
    } + extractor_code_text() + "impl VisitMut for ComponentExtractor {\n"@ + module_visitors_text()
        + fn_decl_visitor_text() + fn_expr_visitor_text() + jsx_element_visitor_text() + var_declarator_visitor_text()
        + "}\n"@
}

fn append(code: &mut String, s: &str)
    ensures
        final(code)@ == old(code)@ + s@,
{
    code.append(s);
}

/// The library of a generated plugin. The visitors are the fixed ones,
/// whatever the visitor methods and helpers found.
pub fn generate_lib_rs(
    visitor_methods: &Vec<VisitorMethod>,
    helper_functions: &Vec<HelperFunction>,
    metadata: Option<&PluginMetadata>,
) -> (r: String)
    ensures
        r@ == lib_rs_code(metadata),
{
    let mut code = lib_header();
    match metadata {
        Some(meta) => {
            append(&mut code, "// Structs from metadata\n");
            let structs = generate_structs_from_metadata(meta);
            append(&mut code, structs.as_str());
        },
        None => {
            append(&mut code, "// Default structs (no metadata provided)\n");
            let structs = default_structs();
            append(&mut code, structs.as_str());
        },
    }
    let extractor = extractor_code();
    append(&mut code, extractor.as_str());
    append(&mut code, "impl VisitMut for ComponentExtractor {\n");
    let modules = module_visitors();
    append(&mut code, modules.as_str());
    let fn_decl = generate_fn_decl_visitor();
    append(&mut code, fn_decl.as_str());
    let fn_expr = fn_expr_visitor();
    append(&mut code, fn_expr.as_str());
    let jsx = generate_jsx_element_visitor();
    append(&mut code, jsx.as_str());
    let var = generate_var_declarator_visitor();
    append(&mut code, var.as_str());
    append(&mut code, "}\n");
    code
}


/// The text of the generated plugin's command-line program: it reads the file
/// named by its first argument, runs the extractor on it, prints the
/// components as JSON and writes their C# file.
pub open spec fn main_rs_code() -> Seq<char> {
    r#"use swc_common::{sync::Lrc, FileName, SourceMap};
use swc_ecma_ast::*;
use swc_ecma_parser::{lexer::Lexer, Parser, Syntax, TsSyntax};
use swc_ecma_visit::VisitMutWith;
use swc_generated_plugin::ComponentExtractor;
use std::env;
use std::fs;

fn main() {
    let args: Vec<String> = env::args().collect();

    let file_path = if args.len() > 1 {
        &args[1]
    } else {
        "../fixtures/Counter.tsx"
    };

    // Read the source file
    let code = fs::read_to_string(file_path)
        .expect(&format!("Failed to read {}", file_path));

    // Parse the file
    let cm = Lrc::new(SourceMap::default());
    let fm = cm.new_source_file(Lrc::new(FileName::Custom(file_path.into())), code);

    let syntax = Syntax::Typescript(TsSyntax {
        tsx: true,
        ..Default::default()
    });

    let lexer = Lexer::new(syntax, Default::default(), (&*fm).into(), None);
    let mut parser = Parser::new_from(lexer);
    let mut module = parser.parse_module().expect("Parse failed");

    // Run the extractor
    let mut extractor = ComponentExtractor::new();
    module.visit_mut_with(&mut extractor);

    // Output JSON metadata
    let json = serde_json::to_string_pretty(&extractor.components)
        .expect("Failed to serialize");
    println!("{}", json);

    // Generate C# code if components were found
    if !extractor.components.is_empty() {
        let csharp_code = swc_generated_plugin::generate_c_sharp_file(&extractor.components);

        // Write to .cs file
        let cs_path = file_path.replace(".tsx", ".cs").replace(".ts", ".cs").replace(".jsx", ".cs").replace(".js", ".cs");
        fs::write(&cs_path, csharp_code)
            .expect(&format!("Failed to write C# file: {}", cs_path));

        eprintln!("✓ Generated C# file: {}", cs_path);
    }
}
"#@
}

/// The generated plugin's command-line program, which runs the extractor on
/// a file and prints what it found.
pub fn generate_main_rs() -> (r: String)
    ensures
        r@ == main_rs_code(),
{
    owned(r#"use swc_common::{sync::Lrc, FileName, SourceMap};
use swc_ecma_ast::*;
use swc_ecma_parser::{lexer::Lexer, Parser, Syntax, TsSyntax};
use swc_ecma_visit::VisitMutWith;
use swc_generated_plugin::ComponentExtractor;
use std::env;
use std::fs;

fn main() {
    let args: Vec<String> = env::args().collect();

    let file_path = if args.len() > 1 {
        &args[1]
    } else {
        "../fixtures/Counter.tsx"
    };

    // Read the source file
    let code = fs::read_to_string(file_path)
        .expect(&format!("Failed to read {}", file_path));

    // Parse the file
    let cm = Lrc::new(SourceMap::default());
    let fm = cm.new_source_file(Lrc::new(FileName::Custom(file_path.into())), code);

    let syntax = Syntax::Typescript(TsSyntax {
        tsx: true,
        ..Default::default()
    });

    let lexer = Lexer::new(syntax, Default::default(), (&*fm).into(), None);
    let mut parser = Parser::new_from(lexer);
    let mut module = parser.parse_module().expect("Parse failed");

    // Run the extractor
    let mut extractor = ComponentExtractor::new();
    module.visit_mut_with(&mut extractor);

    // Output JSON metadata
    let json = serde_json::to_string_pretty(&extractor.components)
        .expect("Failed to serialize");
    println!("{}", json);

    // Generate C# code if components were found
    if !extractor.components.is_empty() {
        let csharp_code = swc_generated_plugin::generate_c_sharp_file(&extractor.components);

        // Write to .cs file
        let cs_path = file_path.replace(".tsx", ".cs").replace(".ts", ".cs").replace(".jsx", ".cs").replace(".js", ".cs");
        fs::write(&cs_path, csharp_code)
            .expect(&format!("Failed to write C# file: {}", cs_path));

        eprintln!("✓ Generated C# file: {}", cs_path);
    }
}
"#)
}

} // verus!
