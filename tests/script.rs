use otc::script::{extract_script, InvalidScriptError};

#[test]
fn script_block_is_extracted() {
    let text = "<template><div/></template>\n<script>\nexport default {};\n</script>\n<style></style>";
    assert_eq!(extract_script(text), Ok("\nexport default {};\n".to_string()));
}

#[test]
fn missing_open_tag_is_rejected() {
    assert_eq!(extract_script("export default {};</script>"), Err(InvalidScriptError));
}

#[test]
fn missing_close_tag_is_rejected() {
    assert_eq!(extract_script("<script>export default {};"), Err(InvalidScriptError));
}

#[test]
fn repeated_open_tag_is_rejected() {
    assert_eq!(extract_script("<script>a</script><script>b</script>"), Err(InvalidScriptError));
}

#[test]
fn repeated_close_tag_is_rejected() {
    assert_eq!(extract_script("<script>a</script></script>"), Err(InvalidScriptError));
}

#[test]
fn empty_script_block_is_extracted() {
    assert_eq!(extract_script("x<script></script>y"), Ok(String::new()));
}

