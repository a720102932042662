//! The Android generator: the JNI entry point, the gradle and CMake build
//! files, the manifest, and the React package class that loads the
//! generated native library.

use vstd::prelude::*;
use vstd::string::StringExecFns;

use crate::constants::{
    android_path, android_src_main_path, dest_lib_name, java_base_path, jni_base_path, path_join,
    spec_path_join,
};
use crate::context::{
    cxx_mod_cls_name, spec_cxx_module_name, spec_cxx_namespace, CodegenContext, CxxNamespace,
    Schema,
};
use crate::emit_ffi::spec_dots_to_underscores;
use crate::errors::CodegenError;
use crate::gen_types::{
    artifact_views, ArtifactView, Generator, GeneratorInvoker, Template, TemplateResult,
};
use crate::text::{
    flat_of, indent_str, join_strings, kebab_case, kebab_of, lemma_views_push, pascal_case,
    pascal_of, spec_indent, spec_join, spec_sanitized_lower, spec_spaces, views_of,
    SanitizedString,
};

verus! {

pub struct AndroidTemplate;

pub struct AndroidGenerator;

pub enum AndroidFileType {
    JNIEntry,
    CmakeLists,
    ManifestXml,
    BuildGradle,
    GradleProps,
    RctPackage,
}

/// The include line of one module's C++ class header in the JNI entry.
pub open spec fn spec_jni_include(s: Schema) -> Seq<char> {
    "#include <"@ + spec_cxx_module_name(s.module_name@) + ".hpp>"@
}

pub open spec fn spec_jni_includes(schemas: Seq<Schema>) -> Seq<Seq<char>> {
    schemas.map_values(|s: Schema| spec_jni_include(s))
}

pub open spec fn spec_ns_module(project: Seq<char>, s: Schema) -> Seq<char> {
    spec_cxx_namespace(project) + "::modules::"@ + spec_cxx_module_name(s.module_name@)
}

pub open spec fn spec_jni_prepare_line(project: Seq<char>, s: Schema) -> Seq<char> {
    spec_ns_module(project, s) + "::dataPath = dataPath;"@
}

pub open spec fn spec_jni_prepare_lines(project: Seq<char>, schemas: Seq<Schema>) -> Seq<
    Seq<char>,
> {
    schemas.map_values(|s: Schema| spec_jni_prepare_line(project, s))
}

pub open spec fn spec_jni_register(project: Seq<char>, s: Schema) -> Seq<char> {
    "facebook::react::registerCxxModuleToGlobalModuleMap(\n  "@ + spec_ns_module(project, s)
        + "::kModuleName,\n  [](std::shared_ptr<facebook::react::CallInvoker> jsInvoker) {\n    return std::make_shared<"@
        + spec_ns_module(project, s) + ">(jsInvoker);\n  });"@
}

pub open spec fn spec_jni_registers(project: Seq<char>, schemas: Seq<Schema>) -> Seq<Seq<char>> {
    schemas.map_values(|s: Schema| spec_jni_register(project, s))
}

/// The exported JNI symbol that hands the data path to every module.
pub open spec fn spec_set_data_path_fn_name(ctx: CodegenContext) -> Seq<char> {
    "Java_"@ + spec_dots_to_underscores(ctx.android_package_name@) + "_"@ + pascal_of(
        ctx.project_name@,
    ) + "Package_nativeSetDataPath"@
}

/// The whole JNI entry file: module registration at load, and the
/// data-path handoff export.
pub open spec fn spec_jni_entry(ctx: CodegenContext) -> Seq<char> {
    spec_join(spec_jni_includes(ctx.schemas@), "\n"@)
        + "\n#include <ReactCommon/CxxTurboModuleUtils.h>\n#include <jni.h>\n\njint JNI_OnLoad(JavaVM *vm, void *reserved) {\n"@
        + spec_indent(spec_join(spec_jni_registers(ctx.project_name@, ctx.schemas@), "\n"@),
            spec_spaces(2),
        ) + "\n  return JNI_VERSION_1_6;\n}\n\nextern \"C\"\nJNIEXPORT void JNICALL\n"@
        + spec_set_data_path_fn_name(ctx)
        + "(JNIEnv *env, jclass clazz, jstring jDataPath) {\n  const char* cDataPath = env->GetStringUTFChars(jDataPath, nullptr);\n  auto dataPath = std::string(cDataPath);\n  env->ReleaseStringUTFChars(jDataPath, cDataPath);\n"@
        + spec_indent(spec_join(spec_jni_prepare_lines(ctx.project_name@, ctx.schemas@), "\n"@),
            spec_spaces(2),
        ) + "\n}"@
}

/// The Android manifest.
pub open spec fn spec_manifest_xml(ctx: CodegenContext) -> Seq<char> {
    "<manifest xmlns:android=\"http://schemas.android.com/apk/res/android\"\n  package=\""@
        + ctx.android_package_name@ + "\">\n</manifest>"@
}

/// The gradle build file.
pub open spec fn spec_build_gradle(ctx: CodegenContext) -> Seq<char> {
    "def reactNativeArchitectures() {\n  def value = rootProject.getProperties().get(\"reactNativeArchitectures\")\n  return value ? value.split(\",\") : [\"armeabi-v7a\", \"x86\", \"x86_64\", \"arm64-v8a\"]\n}\n\nbuildscript {\n  ext.getExtOrDefault = {name ->\n    return rootProject.ext.has(name) ? rootProject.ext.get(name) : project.properties['"@
        + pascal_of(ctx.project_name@)
        + "_' + name]\n  }\n\n  repositories {\n    google()\n    mavenCentral()\n  }\n\n  dependencies {\n    classpath \"com.android.tools.build:gradle:8.7.2\"\n    // noinspection DifferentKotlinGradleVersion\n    classpath \"org.jetbrains.kotlin:kotlin-gradle-plugin:${getExtOrDefault('kotlinVersion')}\"\n  }\n}\n\napply plugin: \"com.android.library\"\napply plugin: \"kotlin-android\"\napply plugin: \"com.facebook.react\"\n\ndef getExtOrIntegerDefault(name) {\n  return rootProject.ext.has(name) ? rootProject.ext.get(name) : (project.properties[\""@
        + pascal_of(ctx.project_name@) + "_\" + name]).toInteger()\n}\n\nandroid {\n  namespace \""@
        + ctx.android_package_name@
        + "\"\n\n  compileSdkVersion getExtOrIntegerDefault(\"compileSdkVersion\")\n\n  defaultConfig {\n    minSdkVersion getExtOrIntegerDefault(\"minSdkVersion\")\n    targetSdkVersion getExtOrIntegerDefault(\"targetSdkVersion\")\n\n    externalNativeBuild {\n      cmake {\n        targets \"cxx-"@
        + kebab_of(ctx.project_name@)
        + "\"\n        cppFlags \"-frtti -fexceptions -Wall -Wextra -fstack-protector-all\"\n        arguments \"-DANDROID_STL=c++_shared\", \"-DANDROID_SUPPORT_FLEXIBLE_PAGE_SIZES=ON\"\n        abiFilters (*reactNativeArchitectures())\n        buildTypes {\n          debug {\n            cppFlags \"-O1 -g\"\n          }\n          release {\n            cppFlags \"-O2\"\n          }\n        }\n      }\n    }\n  }\n\n  externalNativeBuild {\n    cmake {\n      path \"CMakeLists.txt\"\n    }\n  }\n\n  buildFeatures {\n    buildConfig true\n    prefab true\n  }\n\n  buildTypes {\n    debug {\n      jniDebuggable true\n    }\n    release {\n      minifyEnabled false\n      externalNativeBuild {\n        cmake {\n          arguments \"-DCMAKE_BUILD_TYPE=Release\"\n        }\n      }\n    }\n  }\n\n  lintOptions {\n    disable \"GradleCompatible\"\n  }\n\n  compileOptions {\n    sourceCompatibility JavaVersion.VERSION_1_8\n    targetCompatibility JavaVersion.VERSION_1_8\n  }\n}\n\nrepositories {\n  mavenCentral()\n  google()\n}\n\ndef kotlin_version = getExtOrDefault(\"kotlinVersion\")\n\ndependencies {\n  implementation \"com.facebook.react:react-android\"\n  implementation \"com.facebook.react:hermes-engine\"\n  implementation \"org.jetbrains.kotlin:kotlin-stdlib:$kotlin_version\"\n}\n\nreact {\n  jsRootDir = file(\"../src/\")\n  libraryName = \""@
        + pascal_of(ctx.project_name@) + "_stub\"\n  codegenJavaPackageName = \""@
        + ctx.android_package_name@ + "\"\n}"@
}

/// The gradle properties file.
pub open spec fn spec_gradle_props(ctx: CodegenContext) -> Seq<char> {
    pascal_of(ctx.project_name@) + "_kotlinVersion=2.0.21\n"@ + pascal_of(ctx.project_name@)
        + "_minSdkVersion=24\n"@ + pascal_of(ctx.project_name@) + "_targetSdkVersion=34\n"@
        + pascal_of(ctx.project_name@) + "_compileSdkVersion=35\n"@ + pascal_of(
        ctx.project_name@,
    ) + "_ndkVersion=27.1.12297006"@
}

/// One module's generated C++ source, as listed in the CMake target.
pub open spec fn spec_cmake_cpp_line(s: Schema) -> Seq<char> {
    "../cpp/"@ + spec_cxx_module_name(s.module_name@) + ".cpp"@
}

pub open spec fn spec_cmake_cpp_lines(schemas: Seq<Schema>) -> Seq<Seq<char>> {
    schemas.map_values(|s: Schema| spec_cmake_cpp_line(s))
}

/// The CMake build file.
pub open spec fn spec_cmakelists(ctx: CodegenContext) -> Seq<char> {
    "cmake_minimum_required(VERSION 3.13)\n\nproject(craby-"@ + kebab_of(ctx.project_name@)
        + ")\n\nset (CMAKE_VERBOSE_MAKEFILE ON)\nset (CMAKE_CXX_STANDARD 20)\n\nfind_package(ReactAndroid REQUIRED CONFIG)\n\n# Import the pre-built Craby library\nadd_library("@
        + kebab_of(ctx.project_name@) + "-lib STATIC IMPORTED)\nset_target_properties("@
        + kebab_of(ctx.project_name@)
        + "-lib PROPERTIES\n  IMPORTED_LOCATION \"${CMAKE_SOURCE_DIR}/src/main/jni/libs/${ANDROID_ABI}/"@
        + "lib"@ + flat_of(spec_sanitized_lower(ctx.project_name@)) + "-prebuilt.a"@
        + "\"\n)\ntarget_include_directories("@ + kebab_of(ctx.project_name@)
        + "-lib INTERFACE\n  \"${CMAKE_SOURCE_DIR}/src/main/jni/include\"\n)\n\n# Generated C++ source files by Craby\nadd_library(cxx-"@
        + kebab_of(ctx.project_name@)
        + " SHARED\n  src/main/jni/OnLoad.cpp\n  src/main/jni/src/ffi.rs.cc\n"@ + spec_indent(
        spec_join(spec_cmake_cpp_lines(ctx.schemas@), "\n"@),
        spec_spaces(2),
    ) + "\n)\ntarget_include_directories(cxx-"@ + kebab_of(ctx.project_name@)
        + " PRIVATE\n  ../cpp\n)\n\ntarget_link_libraries(cxx-"@ + kebab_of(ctx.project_name@)
        + "\n  # android\n  ReactAndroid::reactnative\n  ReactAndroid::jsi\n  # "@ + kebab_of(
        ctx.project_name@,
    ) + "-lib\n  "@ + kebab_of(ctx.project_name@)
        + "-lib\n)\n\n# From ReactAndroid/cmake-utils/folly-flags.cmake\ntarget_compile_definitions(cxx-"@
        + kebab_of(ctx.project_name@)
        + " PRIVATE\n  -DFOLLY_NO_CONFIG=1\n  -DFOLLY_HAVE_CLOCK_GETTIME=1\n  -DFOLLY_USE_LIBCPP=1\n  -DFOLLY_CFG_NO_COROUTINES=1\n  -DFOLLY_MOBILE=1\n  -DFOLLY_HAVE_RECVMMSG=1\n  -DFOLLY_HAVE_PTHREAD=1\n  # Once we target android-23 above, we can comment\n  # the following line. NDK uses GNU style stderror_r() after API 23.\n  -DFOLLY_HAVE_XSI_STRERROR_R=1\n)"@
}

/// One quoted JNI-prepare module name of the React package.
pub open spec fn spec_jni_prepare_name(s: Schema) -> Seq<char> {
    "\"__craby"@ + s.module_name@ + "_JNI_prepare__\""@
}

pub open spec fn spec_jni_prepare_names(schemas: Seq<Schema>) -> Seq<Seq<char>> {
    schemas.map_values(|s: Schema| spec_jni_prepare_name(s))
}

/// The React package class.
pub open spec fn spec_rct_package(ctx: CodegenContext) -> Seq<char> {
    "package "@ + ctx.android_package_name@
        + "\n\nimport com.facebook.react.BaseReactPackage\nimport com.facebook.react.bridge.NativeModule\nimport com.facebook.react.bridge.ReactApplicationContext\nimport com.facebook.react.bridge.ReactContextBaseJavaModule\nimport com.facebook.react.module.model.ReactModuleInfo\nimport com.facebook.react.module.model.ReactModuleInfoProvider\nimport com.facebook.react.turbomodule.core.interfaces.TurboModule\nimport com.facebook.soloader.SoLoader\nimport javax.annotation.Nonnull\n\nclass "@
        + pascal_of(ctx.project_name@)
        + "Package : BaseReactPackage() {\n  companion object {\n    val JNI_PREPARE_MODULE_NAME = setOf(\n"@
        + spec_indent(spec_join(spec_jni_prepare_names(ctx.schemas@), ",\n"@), spec_spaces(6))
        + "\n    )\n  }\n\n  init {\n    SoLoader.loadLibrary(\"cxx-"@ + kebab_of(
        ctx.project_name@,
    )
        + "\")\n  }\n\n  override fun getModule(name: String, reactContext: ReactApplicationContext): NativeModule? {\n    if (name in JNI_PREPARE_MODULE_NAME) {\n      nativeSetDataPath(reactContext.filesDir.absolutePath)\n      return "@
        + pascal_of(ctx.project_name@)
        + "Package.TurboModulePlaceholder(reactContext, name)\n    }\n    return null\n  }\n\n  override fun getReactModuleInfoProvider(): ReactModuleInfoProvider {\n    return ReactModuleInfoProvider {\n      val moduleInfos: MutableMap<String, ReactModuleInfo> = HashMap()\n      JNI_PREPARE_MODULE_NAME.forEach { name ->\n        moduleInfos[name] = ReactModuleInfo(\n          name,\n          name,\n          false,  // canOverrideExistingModule\n          false,  // needsEagerInit\n          false,  // isCxxModule\n          true,  // isTurboModule\n        )\n      }\n      moduleInfos\n    }\n  }\n\n  private external fun nativeSetDataPath(dataPath: String)\n\n  class TurboModulePlaceholder(reactContext: ReactApplicationContext?, private val name: String) :\n    ReactContextBaseJavaModule(reactContext),\n    TurboModule {\n    @Nonnull\n    override fun getName(): String {\n      return name\n    }\n  }\n}"@
}

impl AndroidTemplate {
    /// The file name each Android file type is written under.
    pub fn file_path(&self, file_type: &AndroidFileType, project_name: &str) -> (r: String)
        ensures
            file_type is JNIEntry ==> r@ == "OnLoad.cpp"@,
            file_type is CmakeLists ==> r@ == "CMakeLists.txt"@,
            file_type is ManifestXml ==> r@ == "AndroidManifest.xml"@,
            file_type is BuildGradle ==> r@ == "build.gradle"@,
            file_type is GradleProps ==> r@ == "gradle.properties"@,
            file_type is RctPackage ==> r@ == pascal_of(project_name@) + "Package.kt"@,
    {
        match file_type {
            AndroidFileType::JNIEntry => "OnLoad.cpp".to_owned(),
            AndroidFileType::CmakeLists => "CMakeLists.txt".to_owned(),
            AndroidFileType::ManifestXml => "AndroidManifest.xml".to_owned(),
            AndroidFileType::BuildGradle => "build.gradle".to_owned(),
            AndroidFileType::GradleProps => "gradle.properties".to_owned(),
            AndroidFileType::RctPackage => {
                let mut out = pascal_case(project_name);
                out.append("Package.kt");
                out
            },
        }
    }

    /// Render the JNI entry point.
    #[verifier::loop_isolation(false)]
    pub fn jni_entry(&self, ctx: &CodegenContext) -> (r: String)
        ensures
            r@ == spec_jni_entry(*ctx),
    {
        let schemas = &ctx.schemas;
        let mut includes: Vec<String> = Vec::new();
        let mut prepares: Vec<String> = Vec::new();
        let mut registers: Vec<String> = Vec::new();
        let ns = CxxNamespace::new(ctx.project_name.as_str());
        let mut i: usize = 0;
        while i < schemas.len()
            invariant
                i <= schemas@.len(),
                ns.0@ == spec_cxx_namespace(ctx.project_name@),
                views_of(includes@) == spec_jni_includes(schemas@.subrange(0, i as int)),
                views_of(prepares@) == spec_jni_prepare_lines(
                    ctx.project_name@,
                    schemas@.subrange(0, i as int),
                ),
                views_of(registers@) == spec_jni_registers(
                    ctx.project_name@,
                    schemas@.subrange(0, i as int),
                ),
            decreases schemas@.len() - i,
        {
            let cxx_mod = cxx_mod_cls_name(schemas[i].module_name.as_str());
            let mut nsmod = ns.0.clone();
            nsmod.append("::modules::");
            nsmod.append(cxx_mod.as_str());

            let mut import_line = "#include <".to_owned();
            import_line.append(cxx_mod.as_str());
            import_line.append(".hpp>");

            let mut prepare = nsmod.clone();
            prepare.append("::dataPath = dataPath;");

            let mut register = "facebook::react::registerCxxModuleToGlobalModuleMap(\n  "
                .to_owned();
            register.append(nsmod.as_str());
            register.append(
                "::kModuleName,\n  [](std::shared_ptr<facebook::react::CallInvoker> jsInvoker) {\n    return std::make_shared<",
            );
            register.append(nsmod.as_str());
            register.append(">(jsInvoker);\n  });");

            proof {
                lemma_views_push(includes@, import_line);
                lemma_views_push(prepares@, prepare);
                lemma_views_push(registers@, register);
            }
            includes.push(import_line);
            prepares.push(prepare);
            registers.push(register);
            i = i + 1;
            proof {
                let prefix = schemas@.subrange(0, i - 1 as int);
                assert(schemas@.subrange(0, i as int) =~= prefix.push(schemas@[i - 1]));
                assert(spec_jni_includes(prefix.push(schemas@[i - 1])) =~= spec_jni_includes(
                    prefix,
                ).push(spec_jni_include(schemas@[i - 1])));
                assert(spec_jni_prepare_lines(ctx.project_name@, prefix.push(schemas@[i - 1]))
                    =~= spec_jni_prepare_lines(ctx.project_name@, prefix).push(
                    spec_jni_prepare_line(ctx.project_name@, schemas@[i - 1]),
                ));
                assert(spec_jni_registers(ctx.project_name@, prefix.push(schemas@[i - 1]))
                    =~= spec_jni_registers(ctx.project_name@, prefix).push(
                    spec_jni_register(ctx.project_name@, schemas@[i - 1]),
                ));
            }
        }
        proof {
            assert(schemas@.subrange(0, schemas@.len() as int) =~= schemas@);
        }
        let includes_joined = join_strings(&includes, "\n");
        let prepares_joined = join_strings(&prepares, "\n");
        let registers_joined = join_strings(&registers, "\n");
        let prepares_ind = indent_str(prepares_joined.as_str(), 2);
        let registers_ind = indent_str(registers_joined.as_str(), 2);

        let pkg = crate::emit_ffi::dots_to_underscores(ctx.android_package_name.as_str());
        let pascal = pascal_case(ctx.project_name.as_str());

        let mut out = includes_joined;
        out.append(
            "\n#include <ReactCommon/CxxTurboModuleUtils.h>\n#include <jni.h>\n\njint JNI_OnLoad(JavaVM *vm, void *reserved) {\n",
        );
        out.append(registers_ind.as_str());
        out.append("\n  return JNI_VERSION_1_6;\n}\n\nextern \"C\"\nJNIEXPORT void JNICALL\n");
        out.append("Java_");
        out.append(pkg.as_str());
        out.append("_");
        out.append(pascal.as_str());
        out.append("Package_nativeSetDataPath");
        out.append(
            "(JNIEnv *env, jclass clazz, jstring jDataPath) {\n  const char* cDataPath = env->GetStringUTFChars(jDataPath, nullptr);\n  auto dataPath = std::string(cDataPath);\n  env->ReleaseStringUTFChars(jDataPath, cDataPath);\n",
        );
        out.append(prepares_ind.as_str());
        out.append("\n}");
        proof {
            assert(out@ =~= spec_jni_entry(*ctx));
        }
        out
    }

    /// Render the Android manifest.
    pub fn manifest_xml(&self, ctx: &CodegenContext) -> (r: String)
        ensures
            r@ == spec_manifest_xml(*ctx),
    {
        let mut out = "<manifest xmlns:android=\"http://schemas.android.com/apk/res/android\"\n  package=\""
            .to_owned();
        out.append(ctx.android_package_name.as_str());
        out.append("\">\n</manifest>");
        out
    }

    /// Render the gradle build file.
    pub fn build_gradle(&self, ctx: &CodegenContext) -> (r: String)
        ensures
            r@ == spec_build_gradle(*ctx),
    {
        let pascal = pascal_case(ctx.project_name.as_str());
        let kebab = kebab_case(ctx.project_name.as_str());
        let mut out = "def reactNativeArchitectures() {\n  def value = rootProject.getProperties().get(\"reactNativeArchitectures\")\n  return value ? value.split(\",\") : [\"armeabi-v7a\", \"x86\", \"x86_64\", \"arm64-v8a\"]\n}\n\nbuildscript {\n  ext.getExtOrDefault = {name ->\n    return rootProject.ext.has(name) ? rootProject.ext.get(name) : project.properties['"
            .to_owned();
        out.append(pascal.as_str());
        out.append(
            "_' + name]\n  }\n\n  repositories {\n    google()\n    mavenCentral()\n  }\n\n  dependencies {\n    classpath \"com.android.tools.build:gradle:8.7.2\"\n    // noinspection DifferentKotlinGradleVersion\n    classpath \"org.jetbrains.kotlin:kotlin-gradle-plugin:${getExtOrDefault('kotlinVersion')}\"\n  }\n}\n\napply plugin: \"com.android.library\"\napply plugin: \"kotlin-android\"\napply plugin: \"com.facebook.react\"\n\ndef getExtOrIntegerDefault(name) {\n  return rootProject.ext.has(name) ? rootProject.ext.get(name) : (project.properties[\"",
        );
        out.append(pascal.as_str());
        out.append("_\" + name]).toInteger()\n}\n\nandroid {\n  namespace \"");
        out.append(ctx.android_package_name.as_str());
        out.append(
            "\"\n\n  compileSdkVersion getExtOrIntegerDefault(\"compileSdkVersion\")\n\n  defaultConfig {\n    minSdkVersion getExtOrIntegerDefault(\"minSdkVersion\")\n    targetSdkVersion getExtOrIntegerDefault(\"targetSdkVersion\")\n\n    externalNativeBuild {\n      cmake {\n        targets \"cxx-",
        );
        out.append(kebab.as_str());
        out.append(
            "\"\n        cppFlags \"-frtti -fexceptions -Wall -Wextra -fstack-protector-all\"\n        arguments \"-DANDROID_STL=c++_shared\", \"-DANDROID_SUPPORT_FLEXIBLE_PAGE_SIZES=ON\"\n        abiFilters (*reactNativeArchitectures())\n        buildTypes {\n          debug {\n            cppFlags \"-O1 -g\"\n          }\n          release {\n            cppFlags \"-O2\"\n          }\n        }\n      }\n    }\n  }\n\n  externalNativeBuild {\n    cmake {\n      path \"CMakeLists.txt\"\n    }\n  }\n\n  buildFeatures {\n    buildConfig true\n    prefab true\n  }\n\n  buildTypes {\n    debug {\n      jniDebuggable true\n    }\n    release {\n      minifyEnabled false\n      externalNativeBuild {\n        cmake {\n          arguments \"-DCMAKE_BUILD_TYPE=Release\"\n        }\n      }\n    }\n  }\n\n  lintOptions {\n    disable \"GradleCompatible\"\n  }\n\n  compileOptions {\n    sourceCompatibility JavaVersion.VERSION_1_8\n    targetCompatibility JavaVersion.VERSION_1_8\n  }\n}\n\nrepositories {\n  mavenCentral()\n  google()\n}\n\ndef kotlin_version = getExtOrDefault(\"kotlinVersion\")\n\ndependencies {\n  implementation \"com.facebook.react:react-android\"\n  implementation \"com.facebook.react:hermes-engine\"\n  implementation \"org.jetbrains.kotlin:kotlin-stdlib:$kotlin_version\"\n}\n\nreact {\n  jsRootDir = file(\"../src/\")\n  libraryName = \"",
        );
        out.append(pascal.as_str());
        out.append("_stub\"\n  codegenJavaPackageName = \"");
        out.append(ctx.android_package_name.as_str());
        out.append("\"\n}");
        out
    }

    /// Render the gradle properties file.
    pub fn gradle_props(&self, ctx: &CodegenContext) -> (r: String)
        ensures
            r@ == spec_gradle_props(*ctx),
    {
        let pascal = pascal_case(ctx.project_name.as_str());
        let mut out = pascal.clone();
        out.append("_kotlinVersion=2.0.21\n");
        out.append(pascal.as_str());
        out.append("_minSdkVersion=24\n");
        out.append(pascal.as_str());
        out.append("_targetSdkVersion=34\n");
        out.append(pascal.as_str());
        out.append("_compileSdkVersion=35\n");
        out.append(pascal.as_str());
        out.append("_ndkVersion=27.1.12297006");
        out
    }

    /// Render the CMake build file.
    #[verifier::loop_isolation(false)]
    pub fn cmakelists(&self, ctx: &CodegenContext) -> (r: String)
        ensures
            r@ == spec_cmakelists(*ctx),
    {
        let schemas = &ctx.schemas;
        let kebab = kebab_case(ctx.project_name.as_str());
        let sanitized = SanitizedString::new(ctx.project_name.as_str());
        let lib_name = dest_lib_name(&sanitized);
        let mut cpp_lines: Vec<String> = Vec::new();
        let mut i: usize = 0;
        while i < schemas.len()
            invariant
                i <= schemas@.len(),
                views_of(cpp_lines@) == spec_cmake_cpp_lines(schemas@.subrange(0, i as int)),
            decreases schemas@.len() - i,
        {
            let cxx_mod = cxx_mod_cls_name(schemas[i].module_name.as_str());
            let mut line = "../cpp/".to_owned();
            line.append(cxx_mod.as_str());
            line.append(".cpp");
            proof {
                lemma_views_push(cpp_lines@, line);
            }
            cpp_lines.push(line);
            i = i + 1;
            proof {
                let prefix = schemas@.subrange(0, i - 1 as int);
                assert(schemas@.subrange(0, i as int) =~= prefix.push(schemas@[i - 1]));
                assert(spec_cmake_cpp_lines(prefix.push(schemas@[i - 1]))
                    =~= spec_cmake_cpp_lines(prefix).push(spec_cmake_cpp_line(schemas@[i - 1])));
            }
        }
        proof {
            assert(schemas@.subrange(0, schemas@.len() as int) =~= schemas@);
        }
        let cpp_joined = join_strings(&cpp_lines, "\n");
        let cpp_ind = indent_str(cpp_joined.as_str(), 2);

        let mut out = "cmake_minimum_required(VERSION 3.13)\n\nproject(craby-".to_owned();
        out.append(kebab.as_str());
        out.append(
            ")\n\nset (CMAKE_VERBOSE_MAKEFILE ON)\nset (CMAKE_CXX_STANDARD 20)\n\nfind_package(ReactAndroid REQUIRED CONFIG)\n\n# Import the pre-built Craby library\nadd_library(",
        );
        out.append(kebab.as_str());
        out.append("-lib STATIC IMPORTED)\nset_target_properties(");
        out.append(kebab.as_str());
        out.append(
            "-lib PROPERTIES\n  IMPORTED_LOCATION \"${CMAKE_SOURCE_DIR}/src/main/jni/libs/${ANDROID_ABI}/",
        );
        out.append(lib_name.as_str());
        out.append("\"\n)\ntarget_include_directories(");
        out.append(kebab.as_str());
        out.append(
            "-lib INTERFACE\n  \"${CMAKE_SOURCE_DIR}/src/main/jni/include\"\n)\n\n# Generated C++ source files by Craby\nadd_library(cxx-",
        );
        out.append(kebab.as_str());
        out.append(" SHARED\n  src/main/jni/OnLoad.cpp\n  src/main/jni/src/ffi.rs.cc\n");
        out.append(cpp_ind.as_str());
        out.append("\n)\ntarget_include_directories(cxx-");
        out.append(kebab.as_str());
        out.append(" PRIVATE\n  ../cpp\n)\n\ntarget_link_libraries(cxx-");
        out.append(kebab.as_str());
        out.append("\n  # android\n  ReactAndroid::reactnative\n  ReactAndroid::jsi\n  # ");
        out.append(kebab.as_str());
        out.append("-lib\n  ");
        out.append(kebab.as_str());
        out.append(
            "-lib\n)\n\n# From ReactAndroid/cmake-utils/folly-flags.cmake\ntarget_compile_definitions(cxx-",
        );
        out.append(kebab.as_str());
        out.append(
            " PRIVATE\n  -DFOLLY_NO_CONFIG=1\n  -DFOLLY_HAVE_CLOCK_GETTIME=1\n  -DFOLLY_USE_LIBCPP=1\n  -DFOLLY_CFG_NO_COROUTINES=1\n  -DFOLLY_MOBILE=1\n  -DFOLLY_HAVE_RECVMMSG=1\n  -DFOLLY_HAVE_PTHREAD=1\n  # Once we target android-23 above, we can comment\n  # the following line. NDK uses GNU style stderror_r() after API 23.\n  -DFOLLY_HAVE_XSI_STRERROR_R=1\n)",
        );
        proof {
            assert(out@ =~= spec_cmakelists(*ctx));
        }
        out
    }

    /// Render the React package class.
    #[verifier::loop_isolation(false)]
    pub fn rct_package(&self, ctx: &CodegenContext) -> (r: String)
        ensures
            r@ == spec_rct_package(*ctx),
    {
        let schemas = &ctx.schemas;
        let pascal = pascal_case(ctx.project_name.as_str());
        let kebab = kebab_case(ctx.project_name.as_str());
        let mut names: Vec<String> = Vec::new();
        let mut i: usize = 0;
        while i < schemas.len()
            invariant
                i <= schemas@.len(),
                views_of(names@) == spec_jni_prepare_names(schemas@.subrange(0, i as int)),
            decreases schemas@.len() - i,
        {
            let mut name = "\"__craby".to_owned();
            name.append(schemas[i].module_name.as_str());
            name.append("_JNI_prepare__\"");
            proof {
                lemma_views_push(names@, name);
            }
            names.push(name);
            i = i + 1;
            proof {
                let prefix = schemas@.subrange(0, i - 1 as int);
                assert(schemas@.subrange(0, i as int) =~= prefix.push(schemas@[i - 1]));
                assert(spec_jni_prepare_names(prefix.push(schemas@[i - 1]))
                    =~= spec_jni_prepare_names(prefix).push(
                    spec_jni_prepare_name(schemas@[i - 1]),
                ));
            }
        }
        proof {
            assert(schemas@.subrange(0, schemas@.len() as int) =~= schemas@);
        }
        let names_joined = join_strings(&names, ",\n");
        let names_ind = indent_str(names_joined.as_str(), 6);

        let mut out = "package ".to_owned();
        out.append(ctx.android_package_name.as_str());
        out.append(
            "\n\nimport com.facebook.react.BaseReactPackage\nimport com.facebook.react.bridge.NativeModule\nimport com.facebook.react.bridge.ReactApplicationContext\nimport com.facebook.react.bridge.ReactContextBaseJavaModule\nimport com.facebook.react.module.model.ReactModuleInfo\nimport com.facebook.react.module.model.ReactModuleInfoProvider\nimport com.facebook.react.turbomodule.core.interfaces.TurboModule\nimport com.facebook.soloader.SoLoader\nimport javax.annotation.Nonnull\n\nclass ",
        );
        out.append(pascal.as_str());
        out.append(
            "Package : BaseReactPackage() {\n  companion object {\n    val JNI_PREPARE_MODULE_NAME = setOf(\n",
        );
        out.append(names_ind.as_str());
        out.append("\n    )\n  }\n\n  init {\n    SoLoader.loadLibrary(\"cxx-");
        out.append(kebab.as_str());
        out.append(
            "\")\n  }\n\n  override fun getModule(name: String, reactContext: ReactApplicationContext): NativeModule? {\n    if (name in JNI_PREPARE_MODULE_NAME) {\n      nativeSetDataPath(reactContext.filesDir.absolutePath)\n      return ",
        );
        out.append(pascal.as_str());
        out.append(
            "Package.TurboModulePlaceholder(reactContext, name)\n    }\n    return null\n  }\n\n  override fun getReactModuleInfoProvider(): ReactModuleInfoProvider {\n    return ReactModuleInfoProvider {\n      val moduleInfos: MutableMap<String, ReactModuleInfo> = HashMap()\n      JNI_PREPARE_MODULE_NAME.forEach { name ->\n        moduleInfos[name] = ReactModuleInfo(\n          name,\n          name,\n          false,  // canOverrideExistingModule\n          false,  // needsEagerInit\n          false,  // isCxxModule\n          true,  // isTurboModule\n        )\n      }\n      moduleInfos\n    }\n  }\n\n  private external fun nativeSetDataPath(dataPath: String)\n\n  class TurboModulePlaceholder(reactContext: ReactApplicationContext?, private val name: String) :\n    ReactContextBaseJavaModule(reactContext),\n    TurboModule {\n    @Nonnull\n    override fun getName(): String {\n      return name\n    }\n  }\n}",
        );
        out
    }
}

impl Template for AndroidTemplate {
    type FileType = AndroidFileType;

    fn render(&self, ctx: &CodegenContext, file_type: &Self::FileType) -> Result<
        Vec<TemplateResult>,
        CodegenError,
    > {
        let name = self.file_path(file_type, ctx.project_name.as_str());
        let content = match file_type {
            AndroidFileType::JNIEntry => self.jni_entry(ctx),
            AndroidFileType::CmakeLists => self.cmakelists(ctx),
            AndroidFileType::ManifestXml => self.manifest_xml(ctx),
            AndroidFileType::BuildGradle => self.build_gradle(ctx),
            AndroidFileType::GradleProps => self.gradle_props(ctx),
            AndroidFileType::RctPackage => self.rct_package(ctx),
        };
        let mut results: Vec<TemplateResult> = Vec::new();
        results.push(TemplateResult { path: name, content, overwrite: true });
        Ok(results)
    }
}

/// The six Android artifacts of one pass, in emission order.
pub open spec fn spec_android_artifacts(ctx: CodegenContext) -> Seq<ArtifactView> {
    seq![
        ArtifactView {
            path: spec_path_join(spec_path_join(ctx.root@, "android"@), "CMakeLists.txt"@),
            content: spec_cmakelists(ctx),
            overwrite: true,
        },
        ArtifactView {
            path: spec_path_join(spec_path_join(ctx.root@, "android"@), "build.gradle"@),
            content: spec_build_gradle(ctx),
            overwrite: true,
        },
        ArtifactView {
            path: spec_path_join(spec_path_join(ctx.root@, "android"@), "gradle.properties"@),
            content: spec_gradle_props(ctx),
            overwrite: true,
        },
        ArtifactView {
            path: spec_path_join(
                spec_path_join(
                    spec_path_join(
                        spec_path_join(spec_path_join(ctx.root@, "android"@), "src"@),
                        "main"@,
                    ),
                    "jni"@,
                ),
                "OnLoad.cpp"@,
            ),
            content: spec_jni_entry(ctx),
            overwrite: true,
        },
        ArtifactView {
            path: spec_path_join(
                spec_path_join(
                    spec_path_join(spec_path_join(ctx.root@, "android"@), "src"@),
                    "main"@,
                ),
                "AndroidManifest.xml"@,
            ),
            content: spec_manifest_xml(ctx),
            overwrite: true,
        },
        ArtifactView {
            path: spec_path_join(
                spec_path_join(
                    spec_path_join(
                        spec_path_join(
                            spec_path_join(spec_path_join(ctx.root@, "android"@), "src"@),
                            "main"@,
                        ),
                        "java"@,
                    ),
                    crate::constants::spec_dots_to_slashes(ctx.android_package_name@),
                ),
                pascal_of(ctx.project_name@) + "Package.kt"@,
            ),
            content: spec_rct_package(ctx),
            overwrite: true,
        },
    ]
}

impl AndroidGenerator {
    pub fn new() -> (r: AndroidGenerator) {
        AndroidGenerator
    }

    /// Produce all Android artifacts, each fully regenerated.
    pub fn generate_artifacts(&self, ctx: &CodegenContext) -> (r: Vec<TemplateResult>)
        ensures
            artifact_views(r@) == spec_android_artifacts(*ctx),
    {
        let template = AndroidTemplate;
        let android_base = android_path(ctx.root.as_str());
        let src_main = android_src_main_path(ctx.root.as_str());
        let jni_base = jni_base_path(ctx.root.as_str());
        let java_base = java_base_path(
            ctx.root.as_str(),
            ctx.android_package_name.as_str(),
        );
        let mut results: Vec<TemplateResult> = Vec::new();
        results.push(
            TemplateResult {
                path: path_join(android_base.as_str(), "CMakeLists.txt"),
                content: template.cmakelists(ctx),
                overwrite: true,
            },
        );
        results.push(
            TemplateResult {
                path: path_join(android_base.as_str(), "build.gradle"),
                content: template.build_gradle(ctx),
                overwrite: true,
            },
        );
        results.push(
            TemplateResult {
                path: path_join(android_base.as_str(), "gradle.properties"),
                content: template.gradle_props(ctx),
                overwrite: true,
            },
        );
        results.push(
            TemplateResult {
                path: path_join(jni_base.as_str(), "OnLoad.cpp"),
                content: template.jni_entry(ctx),
                overwrite: true,
            },
        );
        results.push(
            TemplateResult {
                path: path_join(src_main.as_str(), "AndroidManifest.xml"),
                content: template.manifest_xml(ctx),
                overwrite: true,
            },
        );
        let mut kt_name = pascal_case(ctx.project_name.as_str());
        kt_name.append("Package.kt");
        results.push(
            TemplateResult {
                path: path_join(java_base.as_str(), kt_name.as_str()),
                content: template.rct_package(ctx),
                overwrite: true,
            },
        );
        proof {
            assert(artifact_views(results@) =~= spec_android_artifacts(*ctx));
        }
        results
    }
}

impl Generator<AndroidTemplate> for AndroidGenerator {
    /// The Android generator writes into fixed destinations and leaves no
    /// pattern-named files behind, so nothing is cleaned up by name.
    fn cleanup_matches(file_name: &str) -> (r: bool)
        ensures
            r == false,
    {
        false
    }

    fn generate(&self, ctx: &CodegenContext) -> Result<Vec<TemplateResult>, CodegenError> {
        Ok(self.generate_artifacts(ctx))
    }

    fn template_ref(&self) -> &AndroidTemplate {
        &AndroidTemplate
    }
}

impl GeneratorInvoker for AndroidGenerator {
    fn invoke_generate(&self, ctx: &CodegenContext) -> Result<Vec<TemplateResult>, CodegenError> {
        self.generate(ctx)
    }
}

} // verus!
