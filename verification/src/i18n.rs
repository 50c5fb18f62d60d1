//! Localized user-interface strings: the supported languages and the keyed
//! lookup of each translated label.

use vstd::prelude::*;

verus! {

/// A supported interface language.
#[derive(Debug, Clone, Copy, PartialEq, Eq, Hash, Structural)]
pub enum Language {
    Chinese,
    English,
}

impl Language {
    /// The language a stored tag selects; unknown tags fall back to
    /// Chinese.
    pub open spec fn from_str_spec(s: Seq<char>) -> Language {
        if s == "en"@ || s == "en-US"@ || s == "English"@ {
            Language::English
        } else {
            Language::Chinese
        }
    }

    /// Parses a language tag; anything unknown falls back to Chinese.
    pub fn from_str(s: &str) -> (r: Language)
        ensures
            r == Language::from_str_spec(s@),
    {
        if crate::strutil::str_eq(s, "en") || crate::strutil::str_eq(s, "en-US")
            || crate::strutil::str_eq(s, "English") {
            Language::English
        } else {
            Language::Chinese
        }
    }

    /// The canonical tag of the language.
    pub fn to_str(&self) -> (r: &'static str)
        ensures
            self is Chinese ==> r@ == "zh-CN"@,
            self is English ==> r@ == "en"@,
    {
        match self {
            Language::Chinese => "zh-CN",
            Language::English => "en",
        }
    }
}

impl Default for Language {
    fn default() -> (r: Language)
        ensures
            r is Chinese,
    {
        Language::Chinese
    }
}

/// A key naming one translatable interface string.
#[derive(Debug, Clone, Copy, PartialEq, Eq, Hash, Structural)]
pub enum I18nKey {
    MenuFile,
    MenuEdit,
    MenuHelp,
    MenuNewConnection,
    MenuExit,
    MenuSettings,
    MenuAbout,
    ConnectionManagement,
    NewConnection,
    NewGroup,
    Recent,
    Groups,
    NoHistory,
    NoGroups,
    EmptyGroup,
    ConnectionName,
    HostAddress,
    Port,
    Username,
    AuthMethod,
    Password,
    PrivateKey,
    PrivateKeyPath,
    SaveToHistory,
    Group,
    QuickConnect,
    TestConnection,
    SaveToGroup,
    Connect,
    Cancel,
    Browse,
    Edit,
    EditConnection,
    RemoveFromRecent,
    RemoveFromGroup,
    DeletePermanently,
    GroupName,
    GroupDescription,
    CreateGroup,
    EditGroup,
    DeleteGroup,
    Save,
    Create,
    Connecting,
    Connected,
    Disconnected,
    ConnectionError,
    NoActiveConnections,
    ConnectionRemoved,
    ConnectionDeleted,
    GroupDeleted,
    ConnectionSaved,
    AboutTitle,
    SoftwareName,
    Version,
    CommitId,
    GitBranch,
    BuildTime,
    BuildUser,
    Description,
    SoftwareDescription,
    KeyFeatures,
    FeatureSSH,
    FeatureSFTP,
    FeatureTerminal,
    FeatureConnection,
    FeatureLanguage,
    Copyright,
    SettingsTitle,
    Language,
    Theme,
    TerminalSettings,
    Appearance,
    FontSize,
    FontFamily,
    CursorBlink,
    DarkTheme,
    LightTheme,
    Chinese,
    English,
    AutoTheme,
    CurrentSystemTheme,
    DarkThemeName,
    LightThemeName,
    Unknown,
    NoGroup,
    SelectGroup,
    PasswordLabel,
    OkLabel,
    Close,
    Yes,
    No,
}

/// The Chinese label of a key.
pub open spec fn zh_label_spec(key: I18nKey) -> Seq<char> {
    match key {
        I18nKey::MenuFile => "文件"@,
        I18nKey::MenuEdit => "编辑"@,
        I18nKey::MenuHelp => "帮助"@,
        I18nKey::MenuNewConnection => "新建连接"@,
        I18nKey::MenuExit => "退出"@,
        I18nKey::MenuSettings => "设置"@,
        I18nKey::MenuAbout => "关于"@,
        I18nKey::ConnectionManagement => "连接管理"@,
        I18nKey::NewConnection => "新建连接"@,
        I18nKey::NewGroup => "新建分组"@,
        I18nKey::Recent => "最近"@,
        I18nKey::Groups => "分组"@,
        I18nKey::NoHistory => "暂无历史记录"@,
        I18nKey::NoGroups => "暂无分组"@,
        I18nKey::EmptyGroup => "空分组"@,
        I18nKey::ConnectionName => "连接名称:"@,
        I18nKey::HostAddress => "主机地址:"@,
        I18nKey::Port => "端口:"@,
        I18nKey::Username => "用户名:"@,
        I18nKey::AuthMethod => "认证方式:"@,
        I18nKey::Password => "密码:"@,
        I18nKey::PrivateKey => "密钥文件"@,
        I18nKey::PrivateKeyPath => "私钥路径:"@,
        I18nKey::SaveToHistory => "保存到连接历史"@,
        I18nKey::Group => "分组:"@,
        I18nKey::QuickConnect => "快速连接"@,
        I18nKey::TestConnection => "测试连接"@,
        I18nKey::SaveToGroup => "保存到分组"@,
        I18nKey::Connect => "连接"@,
        I18nKey::Cancel => "取消"@,
        I18nKey::Browse => "浏览"@,
        I18nKey::Edit => "编辑"@,
        I18nKey::EditConnection => "编辑连接"@,
        I18nKey::RemoveFromRecent => "从最近列表中移除"@,
        I18nKey::RemoveFromGroup => "从分组中移除"@,
        I18nKey::DeletePermanently => "彻底从磁盘删除"@,
        I18nKey::GroupName => "分组名称:"@,
        I18nKey::GroupDescription => "分组描述:"@,
        I18nKey::CreateGroup => "创建分组"@,
        I18nKey::EditGroup => "编辑分组"@,
        I18nKey::DeleteGroup => "删除分组"@,
        I18nKey::Save => "保存"@,
        I18nKey::Create => "创建"@,
        I18nKey::Connecting => "连接中"@,
        I18nKey::Connected => "已连接"@,
        I18nKey::Disconnected => "已断开"@,
        I18nKey::ConnectionError => "连接错误"@,
        I18nKey::NoActiveConnections => "暂无活动连接"@,
        I18nKey::ConnectionRemoved => "连接已移除"@,
        I18nKey::ConnectionDeleted => "连接已删除"@,
        I18nKey::GroupDeleted => "分组已删除"@,
        I18nKey::ConnectionSaved => "连接已保存"@,
        I18nKey::AboutTitle => "关于 TermLink"@,
        I18nKey::SoftwareName => "软件名称"@,
        I18nKey::Version => "版本"@,
        I18nKey::CommitId => "提交ID"@,
        I18nKey::GitBranch => "Git分支"@,
        I18nKey::BuildTime => "构建时间"@,
        I18nKey::BuildUser => "构建用户"@,
        I18nKey::Description => "描述"@,
        I18nKey::SoftwareDescription => "TermLink是一个现代化的终端连接和文件传输工具，支持SSH连接、SFTP文件传输、终端仿真等功能。"@,
        I18nKey::KeyFeatures => "主要特性："@,
        I18nKey::FeatureSSH => "• SSH安全连接"@,
        I18nKey::FeatureSFTP => "• SFTP文件传输"@,
        I18nKey::FeatureTerminal => "• 终端仿真"@,
        I18nKey::FeatureConnection => "• 连接管理"@,
        I18nKey::FeatureLanguage => "• 多语言支持"@,
        I18nKey::Copyright => "© 2024 TermLink 开发团队"@,
        I18nKey::SettingsTitle => "设置"@,
        I18nKey::Language => "语言"@,
        I18nKey::Theme => "主题"@,
        I18nKey::TerminalSettings => "终端设置"@,
        I18nKey::Appearance => "外观"@,
        I18nKey::FontSize => "字体大小"@,
        I18nKey::FontFamily => "字体"@,
        I18nKey::CursorBlink => "光标闪烁"@,
        I18nKey::DarkTheme => "深色主题"@,
        I18nKey::LightTheme => "浅色主题"@,
        I18nKey::Chinese => "中文"@,
        I18nKey::English => "English"@,
        I18nKey::AutoTheme => "自动"@,
        I18nKey::CurrentSystemTheme => "当前系统主题:"@,
        I18nKey::DarkThemeName => "深色"@,
        I18nKey::LightThemeName => "浅色"@,
        I18nKey::Unknown => "未知"@,
        I18nKey::NoGroup => "未分组"@,
        I18nKey::SelectGroup => "选择分组"@,
        I18nKey::PasswordLabel => "密码:"@,
        I18nKey::OkLabel => "确定"@,
        I18nKey::Close => "关闭"@,
        I18nKey::Yes => "是"@,
        I18nKey::No => "否"@,
    }
}

/// The English label of a key.
pub open spec fn en_label_spec(key: I18nKey) -> Seq<char> {
    match key {
        I18nKey::MenuFile => "File"@,
        I18nKey::MenuEdit => "Edit"@,
        I18nKey::MenuHelp => "Help"@,
        I18nKey::MenuNewConnection => "New Connection"@,
        I18nKey::MenuExit => "Exit"@,
        I18nKey::MenuSettings => "Settings"@,
        I18nKey::MenuAbout => "About"@,
        I18nKey::ConnectionManagement => "Connection Management"@,
        I18nKey::NewConnection => "New Connection"@,
        I18nKey::NewGroup => "New Group"@,
        I18nKey::Recent => "Recent"@,
        I18nKey::Groups => "Groups"@,
        I18nKey::NoHistory => "No history records"@,
        I18nKey::NoGroups => "No groups"@,
        I18nKey::EmptyGroup => "Empty group"@,
        I18nKey::ConnectionName => "Connection Name:"@,
        I18nKey::HostAddress => "Host Address:"@,
        I18nKey::Port => "Port:"@,
        I18nKey::Username => "Username:"@,
        I18nKey::AuthMethod => "Authentication:"@,
        I18nKey::Password => "Password:"@,
        I18nKey::PrivateKey => "Key File"@,
        I18nKey::PrivateKeyPath => "Private Key Path:"@,
        I18nKey::SaveToHistory => "Save to Connection History"@,
        I18nKey::Group => "Group:"@,
        I18nKey::QuickConnect => "Quick Connect"@,
        I18nKey::TestConnection => "Test Connection"@,
        I18nKey::SaveToGroup => "Save to Group"@,
        I18nKey::Connect => "Connect"@,
        I18nKey::Cancel => "Cancel"@,
        I18nKey::Browse => "Browse"@,
        I18nKey::Edit => "Edit"@,
        I18nKey::EditConnection => "Edit Connection"@,
        I18nKey::RemoveFromRecent => "Remove from Recent"@,
        I18nKey::RemoveFromGroup => "Remove from Group"@,
        I18nKey::DeletePermanently => "Delete Permanently"@,
        I18nKey::GroupName => "Group Name:"@,
        I18nKey::GroupDescription => "Group Description:"@,
        I18nKey::CreateGroup => "Create Group"@,
        I18nKey::EditGroup => "Edit Group"@,
        I18nKey::DeleteGroup => "Delete Group"@,
        I18nKey::Save => "Save"@,
        I18nKey::Create => "Create"@,
        I18nKey::Connecting => "Connecting"@,
        I18nKey::Connected => "Connected"@,
        I18nKey::Disconnected => "Disconnected"@,
        I18nKey::ConnectionError => "Connection Error"@,
        I18nKey::NoActiveConnections => "No active connections"@,
        I18nKey::ConnectionRemoved => "Connection removed"@,
        I18nKey::ConnectionDeleted => "Connection deleted"@,
        I18nKey::GroupDeleted => "Group deleted"@,
        I18nKey::ConnectionSaved => "Connection saved"@,
        I18nKey::AboutTitle => "About TermLink"@,
        I18nKey::SoftwareName => "Software Name"@,
        I18nKey::Version => "Version"@,
        I18nKey::CommitId => "Commit ID"@,
        I18nKey::GitBranch => "Git Branch"@,
        I18nKey::BuildTime => "Build Time"@,
        I18nKey::BuildUser => "Build User"@,
        I18nKey::Description => "Description"@,
        I18nKey::SoftwareDescription => "TermLink is a modern terminal connection and file transfer tool that supports SSH connections, SFTP file transfer, and terminal emulation."@,
        I18nKey::KeyFeatures => "Key Features:"@,
        I18nKey::FeatureSSH => "• Secure SSH Connection"@,
        I18nKey::FeatureSFTP => "• SFTP File Transfer"@,
        I18nKey::FeatureTerminal => "• Terminal Emulation"@,
        I18nKey::FeatureConnection => "• Connection Management"@,
        I18nKey::FeatureLanguage => "• Multi-language Support"@,
        I18nKey::Copyright => "© 2024 TermLink Development Team"@,
        I18nKey::SettingsTitle => "Settings"@,
        I18nKey::Language => "Language"@,
        I18nKey::Theme => "Theme"@,
        I18nKey::TerminalSettings => "Terminal Settings"@,
        I18nKey::Appearance => "Appearance"@,
        I18nKey::FontSize => "Font Size"@,
        I18nKey::FontFamily => "Font Family"@,
        I18nKey::CursorBlink => "Cursor Blink"@,
        I18nKey::DarkTheme => "Dark Theme"@,
        I18nKey::LightTheme => "Light Theme"@,
        I18nKey::Chinese => "中文"@,
        I18nKey::English => "English"@,
        I18nKey::AutoTheme => "Auto"@,
        I18nKey::CurrentSystemTheme => "Current System Theme:"@,
        I18nKey::DarkThemeName => "Dark"@,
        I18nKey::LightThemeName => "Light"@,
        I18nKey::Unknown => "Unknown"@,
        I18nKey::NoGroup => "No Group"@,
        I18nKey::SelectGroup => "Select Group"@,
        I18nKey::PasswordLabel => "Password:"@,
        I18nKey::OkLabel => "OK"@,
        I18nKey::Close => "Close"@,
        I18nKey::Yes => "Yes"@,
        I18nKey::No => "No"@,
    }
}

/// The label of a key in a language.
pub open spec fn label_spec(lang: Language, key: I18nKey) -> Seq<char> {
    match lang {
        Language::Chinese => zh_label_spec(key),
        Language::English => en_label_spec(key),
    }
}

/// The Chinese label of a key.
pub fn zh_label(key: I18nKey) -> (r: &'static str)
    ensures
        r@ == zh_label_spec(key),
{
    match key {
        I18nKey::MenuFile => "文件",
        I18nKey::MenuEdit => "编辑",
        I18nKey::MenuHelp => "帮助",
        I18nKey::MenuNewConnection => "新建连接",
        I18nKey::MenuExit => "退出",
        I18nKey::MenuSettings => "设置",
        I18nKey::MenuAbout => "关于",
        I18nKey::ConnectionManagement => "连接管理",
        I18nKey::NewConnection => "新建连接",
        I18nKey::NewGroup => "新建分组",
        I18nKey::Recent => "最近",
        I18nKey::Groups => "分组",
        I18nKey::NoHistory => "暂无历史记录",
        I18nKey::NoGroups => "暂无分组",
        I18nKey::EmptyGroup => "空分组",
        I18nKey::ConnectionName => "连接名称:",
        I18nKey::HostAddress => "主机地址:",
        I18nKey::Port => "端口:",
        I18nKey::Username => "用户名:",
        I18nKey::AuthMethod => "认证方式:",
        I18nKey::Password => "密码:",
        I18nKey::PrivateKey => "密钥文件",
        I18nKey::PrivateKeyPath => "私钥路径:",
        I18nKey::SaveToHistory => "保存到连接历史",
        I18nKey::Group => "分组:",
        I18nKey::QuickConnect => "快速连接",
        I18nKey::TestConnection => "测试连接",
        I18nKey::SaveToGroup => "保存到分组",
        I18nKey::Connect => "连接",
        I18nKey::Cancel => "取消",
        I18nKey::Browse => "浏览",
        I18nKey::Edit => "编辑",
        I18nKey::EditConnection => "编辑连接",
        I18nKey::RemoveFromRecent => "从最近列表中移除",
        I18nKey::RemoveFromGroup => "从分组中移除",
        I18nKey::DeletePermanently => "彻底从磁盘删除",
        I18nKey::GroupName => "分组名称:",
        I18nKey::GroupDescription => "分组描述:",
        I18nKey::CreateGroup => "创建分组",
        I18nKey::EditGroup => "编辑分组",
        I18nKey::DeleteGroup => "删除分组",
        I18nKey::Save => "保存",
        I18nKey::Create => "创建",
        I18nKey::Connecting => "连接中",
        I18nKey::Connected => "已连接",
        I18nKey::Disconnected => "已断开",
        I18nKey::ConnectionError => "连接错误",
        I18nKey::NoActiveConnections => "暂无活动连接",
        I18nKey::ConnectionRemoved => "连接已移除",
        I18nKey::ConnectionDeleted => "连接已删除",
        I18nKey::GroupDeleted => "分组已删除",
        I18nKey::ConnectionSaved => "连接已保存",
        I18nKey::AboutTitle => "关于 TermLink",
        I18nKey::SoftwareName => "软件名称",
        I18nKey::Version => "版本",
        I18nKey::CommitId => "提交ID",
        I18nKey::GitBranch => "Git分支",
        I18nKey::BuildTime => "构建时间",
        I18nKey::BuildUser => "构建用户",
        I18nKey::Description => "描述",
        I18nKey::SoftwareDescription => "TermLink是一个现代化的终端连接和文件传输工具，支持SSH连接、SFTP文件传输、终端仿真等功能。",
        I18nKey::KeyFeatures => "主要特性：",
        I18nKey::FeatureSSH => "• SSH安全连接",
        I18nKey::FeatureSFTP => "• SFTP文件传输",
        I18nKey::FeatureTerminal => "• 终端仿真",
        I18nKey::FeatureConnection => "• 连接管理",
        I18nKey::FeatureLanguage => "• 多语言支持",
        I18nKey::Copyright => "© 2024 TermLink 开发团队",
        I18nKey::SettingsTitle => "设置",
        I18nKey::Language => "语言",
        I18nKey::Theme => "主题",
        I18nKey::TerminalSettings => "终端设置",
        I18nKey::Appearance => "外观",
        I18nKey::FontSize => "字体大小",
        I18nKey::FontFamily => "字体",
        I18nKey::CursorBlink => "光标闪烁",
        I18nKey::DarkTheme => "深色主题",
        I18nKey::LightTheme => "浅色主题",
        I18nKey::Chinese => "中文",
        I18nKey::English => "English",
        I18nKey::AutoTheme => "自动",
        I18nKey::CurrentSystemTheme => "当前系统主题:",
        I18nKey::DarkThemeName => "深色",
        I18nKey::LightThemeName => "浅色",
        I18nKey::Unknown => "未知",
        I18nKey::NoGroup => "未分组",
        I18nKey::SelectGroup => "选择分组",
        I18nKey::PasswordLabel => "密码:",
        I18nKey::OkLabel => "确定",
        I18nKey::Close => "关闭",
        I18nKey::Yes => "是",
        I18nKey::No => "否",
    }
}

/// The English label of a key.
pub fn en_label(key: I18nKey) -> (r: &'static str)
    ensures
        r@ == en_label_spec(key),
{
    match key {
        I18nKey::MenuFile => "File",
        I18nKey::MenuEdit => "Edit",
        I18nKey::MenuHelp => "Help",
        I18nKey::MenuNewConnection => "New Connection",
        I18nKey::MenuExit => "Exit",
        I18nKey::MenuSettings => "Settings",
        I18nKey::MenuAbout => "About",
        I18nKey::ConnectionManagement => "Connection Management",
        I18nKey::NewConnection => "New Connection",
        I18nKey::NewGroup => "New Group",
        I18nKey::Recent => "Recent",
        I18nKey::Groups => "Groups",
        I18nKey::NoHistory => "No history records",
        I18nKey::NoGroups => "No groups",
        I18nKey::EmptyGroup => "Empty group",
        I18nKey::ConnectionName => "Connection Name:",
        I18nKey::HostAddress => "Host Address:",
        I18nKey::Port => "Port:",
        I18nKey::Username => "Username:",
        I18nKey::AuthMethod => "Authentication:",
        I18nKey::Password => "Password:",
        I18nKey::PrivateKey => "Key File",
        I18nKey::PrivateKeyPath => "Private Key Path:",
        I18nKey::SaveToHistory => "Save to Connection History",
        I18nKey::Group => "Group:",
        I18nKey::QuickConnect => "Quick Connect",
        I18nKey::TestConnection => "Test Connection",
        I18nKey::SaveToGroup => "Save to Group",
        I18nKey::Connect => "Connect",
        I18nKey::Cancel => "Cancel",
        I18nKey::Browse => "Browse",
        I18nKey::Edit => "Edit",
        I18nKey::EditConnection => "Edit Connection",
        I18nKey::RemoveFromRecent => "Remove from Recent",
        I18nKey::RemoveFromGroup => "Remove from Group",
        I18nKey::DeletePermanently => "Delete Permanently",
        I18nKey::GroupName => "Group Name:",
        I18nKey::GroupDescription => "Group Description:",
        I18nKey::CreateGroup => "Create Group",
        I18nKey::EditGroup => "Edit Group",
        I18nKey::DeleteGroup => "Delete Group",
        I18nKey::Save => "Save",
        I18nKey::Create => "Create",
        I18nKey::Connecting => "Connecting",
        I18nKey::Connected => "Connected",
        I18nKey::Disconnected => "Disconnected",
        I18nKey::ConnectionError => "Connection Error",
        I18nKey::NoActiveConnections => "No active connections",
        I18nKey::ConnectionRemoved => "Connection removed",
        I18nKey::ConnectionDeleted => "Connection deleted",
        I18nKey::GroupDeleted => "Group deleted",
        I18nKey::ConnectionSaved => "Connection saved",
        I18nKey::AboutTitle => "About TermLink",
        I18nKey::SoftwareName => "Software Name",
        I18nKey::Version => "Version",
        I18nKey::CommitId => "Commit ID",
        I18nKey::GitBranch => "Git Branch",
        I18nKey::BuildTime => "Build Time",
        I18nKey::BuildUser => "Build User",
        I18nKey::Description => "Description",
        I18nKey::SoftwareDescription => "TermLink is a modern terminal connection and file transfer tool that supports SSH connections, SFTP file transfer, and terminal emulation.",
        I18nKey::KeyFeatures => "Key Features:",
        I18nKey::FeatureSSH => "• Secure SSH Connection",
        I18nKey::FeatureSFTP => "• SFTP File Transfer",
        I18nKey::FeatureTerminal => "• Terminal Emulation",
        I18nKey::FeatureConnection => "• Connection Management",
        I18nKey::FeatureLanguage => "• Multi-language Support",
        I18nKey::Copyright => "© 2024 TermLink Development Team",
        I18nKey::SettingsTitle => "Settings",
        I18nKey::Language => "Language",
        I18nKey::Theme => "Theme",
        I18nKey::TerminalSettings => "Terminal Settings",
        I18nKey::Appearance => "Appearance",
        I18nKey::FontSize => "Font Size",
        I18nKey::FontFamily => "Font Family",
        I18nKey::CursorBlink => "Cursor Blink",
        I18nKey::DarkTheme => "Dark Theme",
        I18nKey::LightTheme => "Light Theme",
        I18nKey::Chinese => "中文",
        I18nKey::English => "English",
        I18nKey::AutoTheme => "Auto",
        I18nKey::CurrentSystemTheme => "Current System Theme:",
        I18nKey::DarkThemeName => "Dark",
        I18nKey::LightThemeName => "Light",
        I18nKey::Unknown => "Unknown",
        I18nKey::NoGroup => "No Group",
        I18nKey::SelectGroup => "Select Group",
        I18nKey::PasswordLabel => "Password:",
        I18nKey::OkLabel => "OK",
        I18nKey::Close => "Close",
        I18nKey::Yes => "Yes",
        I18nKey::No => "No",
    }
}

/// Keyed lookup of interface strings under a current language.
pub struct I18nManager {
    current_language: Language,
}

impl I18nManager {
    /// The language lookups currently use.
    pub closed spec fn language_spec(self) -> Language {
        self.current_language
    }

    /// A manager starting out in Chinese.
    pub fn new() -> (m: I18nManager)
        ensures
            m.language_spec() is Chinese,
    {
        I18nManager { current_language: Language::Chinese }
    }

    /// Switches the current language.
    pub fn set_language(&mut self, language: Language)
        ensures
            final(self).language_spec() == language,
    {
        self.current_language = language;
    }

    /// The current language.
    pub fn get_language(&self) -> (r: &Language)
        ensures
            *r == self.language_spec(),
    {
        &self.current_language
    }

    /// The label of a key in the current language.
    pub fn get(&self, key: I18nKey) -> (r: &'static str)
        ensures
            r@ == label_spec(self.language_spec(), key),
    {
        match self.current_language {
            Language::Chinese => zh_label(key),
            Language::English => en_label(key),
        }
    }

    /// Every language the interface supports.
    pub fn get_supported_languages() -> (r: Vec<Language>)
        ensures
            r@ == seq![Language::Chinese, Language::English],
    {
        let mut v: Vec<Language> = Vec::new();
        v.push(Language::Chinese);
        v.push(Language::English);
        proof {
            assert(v@ =~= seq![Language::Chinese, Language::English]);
        }
        v
    }
}

impl Default for I18nManager {
    fn default() -> (m: I18nManager)
        ensures
            m.language_spec() is Chinese,
    {
        I18nManager { current_language: Language::Chinese }
    }
}

} // verus!
