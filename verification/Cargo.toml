[package]
name = "android_intent"
version = "0.1.0"
edition = "2021"
publish = false

[dependencies]
jni = "=0.21.1"
ndk-context = "=0.1.1"
android-activity = { version = "=0.5.2", features = ["native-activity"] }

[dev-dependencies]
jni = { version = "=0.21.1", features = ["invocation"] }
