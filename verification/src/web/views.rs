//! Helpers for the pages.

use vstd::prelude::*;
use vstd::string::*;

verus! {

/// The script that mounts a component once the page has loaded: the name of
/// the component, its properties as a JSON document, and the id of the
/// element that is to hold it.
pub open spec fn react_element_text(
    component: Seq<char>,
    container: Seq<char>,
    properties: Seq<char>,
) -> Seq<char> {
    "window.addEventListener('load', function () { ReactDOM.render(React.createElement("@
        + component + ", "@ + properties + "), document.getElementById('"@ + container
        + "')); });"@
}

/// Generates the script that mounts a component in the element with the id
/// `container`. The scripts of a page are deferred, so the component is
/// mounted on the `load` event.
pub fn react_element(component: &str, container: &str, properties: &str) -> (script: String)
    ensures
        script@ == react_element_text(component@, container@, properties@),
{
    let mut script = String::from_str(
        "window.addEventListener('load', function () { ReactDOM.render(React.createElement(",
    );
    script.append(component);
    script.append(", ");
    script.append(properties);
    script.append("), document.getElementById('");
    script.append(container);
    script.append("')); });");
    script
}

} // verus!
