use vstd::prelude::*;

use super::keys::CommandKey;

verus! {

/// The Simplified Chinese text for each command failure.
pub open spec fn spec_label(key: CommandKey) -> Seq<char> {
    match key {
        CommandKey::DragSourceFilesMissing => "拖拽源文件已不存在"@,
        CommandKey::DragImageMissing => "图片文件已不存在"@,
        CommandKey::DragTextEmpty => "文本内容为空"@,
        CommandKey::ExternalUrlUnsupported => "只能打开 http 或 https 开头的链接"@,
        CommandKey::OcrModelMissing => "OCR 模型文件缺失,请重新安装应用"@,
        CommandKey::OcrEngineBuildFailed => "无法构建 OCR 识别引擎"@,
        CommandKey::OcrRecognizeFailed => "文字识别未能完成"@,
        CommandKey::OcrPackUnknown => "未知的语言包"@,
        CommandKey::OcrPackRequestFailed => "网络请求失败"@,
        CommandKey::OcrPackHttpError => "下载源返回错误"@,
        CommandKey::OcrPackDownloadInterrupted => "下载中断"@,
        CommandKey::OcrPackDownloadFailed => "所有下载源均不可用"@,
        CommandKey::OcrPackSizeMismatch => "下载的文件不完整,已丢弃"@,
        CommandKey::OcrPackHashMismatch => "下载的文件校验失败(已损坏或被篡改),已丢弃"@,
    }
}

/// Returns the Simplified Chinese root-cause text of a failed command.
pub fn label(key: CommandKey) -> (text: &'static str)
    ensures
        text@ == spec_label(key),
{
    match key {
        CommandKey::DragSourceFilesMissing => "拖拽源文件已不存在",
        CommandKey::DragImageMissing => "图片文件已不存在",
        CommandKey::DragTextEmpty => "文本内容为空",
        CommandKey::ExternalUrlUnsupported => "只能打开 http 或 https 开头的链接",
        CommandKey::OcrModelMissing => "OCR 模型文件缺失,请重新安装应用",
        CommandKey::OcrEngineBuildFailed => "无法构建 OCR 识别引擎",
        CommandKey::OcrRecognizeFailed => "文字识别未能完成",
        CommandKey::OcrPackUnknown => "未知的语言包",
        CommandKey::OcrPackRequestFailed => "网络请求失败",
        CommandKey::OcrPackHttpError => "下载源返回错误",
        CommandKey::OcrPackDownloadInterrupted => "下载中断",
        CommandKey::OcrPackDownloadFailed => "所有下载源均不可用",
        CommandKey::OcrPackSizeMismatch => "下载的文件不完整,已丢弃",
        CommandKey::OcrPackHashMismatch => "下载的文件校验失败(已损坏或被篡改),已丢弃",
    }
}

} // verus!
