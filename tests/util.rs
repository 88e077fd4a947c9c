use fungi_normal::util::filename_of_mod_path_;

#[test]
fn path_separators_become_dots() {
    assert_eq!(filename_of_mod_path_("fungi_lang::normal::tests"), "fungi_lang.normal.tests");
    assert_eq!(filename_of_mod_path_("plain"), "plain");
    assert_eq!(filename_of_mod_path_(":::"), ".:");
    assert_eq!(filename_of_mod_path_(""), "");
}
