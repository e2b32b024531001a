use ficha::autostart::AutoStart;

#[test]
fn desktop_entry_lies_below_the_home_directory() {
    assert_eq!(AutoStart::get_autostart_dir("/home/alice"), "/home/alice/.config/autostart");
    assert_eq!(
        AutoStart::get_desktop_file_path("/home/alice"),
        "/home/alice/.config/autostart/ficha.desktop"
    );
    assert_eq!(AutoStart::get_autostart_dir(""), "/.config/autostart");
    assert_eq!(AutoStart::get_desktop_file_path("/root/"), "/root//.config/autostart/ficha.desktop");
}

#[test]
fn desktop_entry_starts_the_executable() {
    assert_eq!(
        AutoStart::desktop_entry("/opt/ficha/ficha"),
        "[Desktop Entry]\nType=Application\nName=FICHA\nGenericName=Application Security Vault\n\
         Comment=Application security monitoring and protection\nExec=/opt/ficha/ficha\n\
         Icon=ficha\nTerminal=false\nCategories=Security;System;\n\
         X-GNOME-Autostart-enabled=true\nStartupWMClass=ficha\n"
    );
}
